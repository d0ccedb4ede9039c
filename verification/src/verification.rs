//! Descriptors of the signer identities a keyless verification accepts.

use vstd::prelude::*;

verus! {

/// One accepted keyless-signing identity, matched exactly.
#[derive(Debug, Clone, PartialEq, Eq)]
pub struct KeylessInfo {
    /// Issuer of the identity token.
    pub issuer: String,
    /// Subject of the identity token, matched as a whole.
    pub subject: String,
}

/// Mathematical content of a [`KeylessInfo`].
pub struct KeylessInfoView {
    pub issuer: Seq<char>,
    pub subject: Seq<char>,
}

impl View for KeylessInfo {
    type V = KeylessInfoView;

    open spec fn view(&self) -> KeylessInfoView {
        KeylessInfoView { issuer: self.issuer@, subject: self.subject@ }
    }
}

impl DeepView for KeylessInfo {
    type V = KeylessInfoView;

    open spec fn deep_view(&self) -> KeylessInfoView {
        self@
    }
}

/// One accepted keyless-signing identity whose subject is matched by URL
/// prefix. A type of its own, so that a prefix match can never be taken for
/// an exact one.
#[derive(Debug, Clone, PartialEq, Eq)]
pub struct KeylessPrefixInfo {
    /// Issuer of the identity token.
    pub issuer: String,
    /// Prefix that the subject of the identity token must start with.
    pub url_prefix: String,
}

/// Mathematical content of a [`KeylessPrefixInfo`].
pub struct KeylessPrefixInfoView {
    pub issuer: Seq<char>,
    pub url_prefix: Seq<char>,
}

impl View for KeylessPrefixInfo {
    type V = KeylessPrefixInfoView;

    open spec fn view(&self) -> KeylessPrefixInfoView {
        KeylessPrefixInfoView { issuer: self.issuer@, url_prefix: self.url_prefix@ }
    }
}

impl DeepView for KeylessPrefixInfo {
    type V = KeylessPrefixInfoView;

    open spec fn deep_view(&self) -> KeylessPrefixInfoView {
        self@
    }
}

} // verus!
