//! Proxy descriptors and their translation into engine outbounds.
//!
//! A `ProxyDescriptor` is what a subscription feed entry or a manually
//! entered node boils down to.  `translate` turns one descriptor into
//! the engine-native outbound object; descriptors of a kind the engine
//! does not support yield an explicit skip signal rather than an error,
//! so a feed with exotic entries degrades gracefully.

use vstd::prelude::*;

verus! {

/// Upload rate written into every hysteria2 outbound, in Mbit/s.
pub const HYSTERIA2_UP_MBPS: u32 = 40;

/// Download rate written into every hysteria2 outbound, in Mbit/s.
pub const HYSTERIA2_DOWN_MBPS: u32 = 350;

/// The proxy protocols a descriptor can carry.  `Unsupported` stands for
/// every feed entry whose protocol the engine configuration does not
/// cover; the translator skips such entries.
#[derive(Clone, Copy, Debug, PartialEq, Eq, Structural)]
pub enum ProxyKind {
    Hysteria2,
    AnyTls,
    Shadowsocks,
    Unsupported,
}

/// One proxy endpoint, as parsed from a feed or entered by hand.
/// Immutable once constructed.
pub struct ProxyDescriptor {
    pub kind: ProxyKind,
    pub name: String,
    pub server: String,
    pub port: u16,
    pub password: String,
    pub sni: Option<String>,
    pub cipher: Option<String>,
    pub insecure_tls: bool,
}

/// TLS block of an outbound.
pub struct TlsSettings {
    pub enabled: bool,
    pub server_name: Option<String>,
    pub insecure: bool,
}

/// One engine-native outbound object.  `tag` is the symbolic name other
/// parts of the configuration use to reference it.
pub struct Outbound {
    pub kind: ProxyKind,
    pub tag: String,
    pub server: String,
    pub port: u16,
    pub password: String,
    pub up_mbps: u32,
    pub down_mbps: u32,
    pub cipher: Option<String>,
    pub tls: TlsSettings,
}

/// The outbound a descriptor of a supported kind translates to: the
/// tag is the descriptor name verbatim, endpoint fields carry over
/// unchanged, rate limits apply to hysteria2 only, TLS is on for the
/// TLS-based protocols, and `insecure` is forced on for hysteria2 and
/// taken verbatim from the descriptor otherwise.
pub open spec fn spec_translate(d: ProxyDescriptor) -> Outbound {
    Outbound {
        kind: d.kind,
        tag: d.name,
        server: d.server,
        port: d.port,
        password: d.password,
        up_mbps: if d.kind is Hysteria2 {
            HYSTERIA2_UP_MBPS
        } else {
            0u32
        },
        down_mbps: if d.kind is Hysteria2 {
            HYSTERIA2_DOWN_MBPS
        } else {
            0u32
        },
        cipher: if d.kind is Shadowsocks {
            d.cipher
        } else {
            Option::<String>::None
        },
        tls: TlsSettings {
            enabled: d.kind is Hysteria2 || d.kind is AnyTls,
            server_name: d.sni,
            insecure: d.kind is Hysteria2 || d.insecure_tls,
        },
    }
}

/// A descriptor is translated exactly when its kind is supported.
pub open spec fn translatable(d: ProxyDescriptor) -> bool {
    !(d.kind is Unsupported)
}

impl ProxyDescriptor {
    /// A field-for-field copy of the descriptor.
    pub fn duplicate(&self) -> (r: ProxyDescriptor)
        ensures
            r == *self,
    {
        ProxyDescriptor {
            kind: self.kind,
            name: self.name.clone(),
            server: self.server.clone(),
            port: self.port,
            password: self.password.clone(),
            sni: clone_opt_string(&self.sni),
            cipher: clone_opt_string(&self.cipher),
            insecure_tls: self.insecure_tls,
        }
    }
}

/// A copy of an optional string.
pub fn clone_opt_string(s: &Option<String>) -> (r: Option<String>)
    ensures
        r == *s,
{
    match s {
        Option::Some(x) => Option::Some(x.clone()),
        Option::None => Option::None,
    }
}

/// Translate one descriptor into an engine outbound.  Returns `None`
/// exactly for unsupported kinds: the caller skips those entries.
pub fn translate(d: &ProxyDescriptor) -> (r: Option<Outbound>)
    ensures
        r == if translatable(*d) {
            Option::Some(spec_translate(*d))
        } else {
            Option::<Outbound>::None
        },
{
    match d.kind {
        ProxyKind::Unsupported => Option::None,
        _ => {
            let is_h2 = matches!(d.kind, ProxyKind::Hysteria2);
            let is_ss = matches!(d.kind, ProxyKind::Shadowsocks);
            Option::Some(
                Outbound {
                    kind: d.kind,
                    tag: d.name.clone(),
                    server: d.server.clone(),
                    port: d.port,
                    password: d.password.clone(),
                    up_mbps: if is_h2 {
                        HYSTERIA2_UP_MBPS
                    } else {
                        0
                    },
                    down_mbps: if is_h2 {
                        HYSTERIA2_DOWN_MBPS
                    } else {
                        0
                    },
                    cipher: if is_ss {
                        clone_opt_string(&d.cipher)
                    } else {
                        Option::None
                    },
                    tls: TlsSettings {
                        enabled: is_h2 || matches!(d.kind, ProxyKind::AnyTls),
                        server_name: clone_opt_string(&d.sni),
                        insecure: if is_h2 {
                            true
                        } else {
                            d.insecure_tls
                        },
                    },
                },
            )
        },
    }
}

} // verus!
