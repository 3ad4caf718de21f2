//! Validated network hostnames.

use vstd::prelude::*;

use crate::error::Error;
use crate::platform::Platform;

verus! {

/// A network hostname, built from a platform verdict on a text.
///
/// A value is constructed only by applying an accepting verdict — either
/// through [`Hostname::parse`], which obtains the verdict from a platform,
/// or through [`Hostname::from_verdict`], whose caller supplies one. There
/// is no default or empty construction, and no operation mutates a value
/// once built. It is usable only as registration input.
pub struct Hostname {
    text: String,
    canonical: String,
}

impl Hostname {
    /// The text this hostname was parsed from.
    pub closed spec fn text_spec(&self) -> Seq<char> {
        self.text@
    }

    /// The canonical name the platform reported on acceptance; empty where
    /// the platform reported none.
    pub closed spec fn canonical_spec(&self) -> Seq<char> {
        self.canonical@
    }

    /// The text `display_text` returns, at the specification level: the
    /// canonical name where the platform supplied one, otherwise the
    /// original input text.
    pub open spec fn display_spec(&self) -> Seq<char> {
        if self.canonical_spec().len() > 0 {
            self.canonical_spec()
        } else {
            self.text_spec()
        }
    }

    /// Builds the parse outcome from the platform's verdict on `text`:
    /// acceptance, carrying the canonical name, yields the hostname;
    /// rejection yields the platform's diagnostic wrapped as
    /// `Error::PlatformError` — no `Hostname` is constructed.
    pub fn from_verdict(text: String, verdict: Result<String, String>) -> (r: Result<
        Hostname,
        Error,
    >)
        ensures
            verdict matches Ok(c) ==> (r matches Ok(h) && h.text_spec() == text@
                && h.canonical_spec() == c@),
            verdict matches Err(d) ==> r == Err::<Hostname, Error>(Error::PlatformError(d)),
    {
        match verdict {
            Ok(canonical) => Ok(Hostname { text, canonical }),
            Err(diagnostic) => Err(Error::PlatformError(diagnostic)),
        }
    }

    /// Parses `text` against the platform's hostname validation; this layer
    /// performs no validation of its own. A rejection surfaces as
    /// `Error::PlatformError`, the only error this call can produce.
    pub fn parse<P: Platform>(platform: &mut P, text: String) -> (r: Result<Hostname, Error>)
        ensures
            r matches Ok(h) ==> h.text_spec() == text@,
            r matches Err(e) ==> e is PlatformError,
    {
        let verdict = platform.create_hostname(&text);
        Hostname::from_verdict(text, verdict)
    }

    /// The hostname's textual form: the platform's canonical name where one
    /// was supplied, with the original input text as the fallback.
    pub fn display_text(&self) -> (r: &String)
        ensures
            r@ == self.display_spec(),
    {
        if !self.canonical.as_str().is_empty() {
            &self.canonical
        } else {
            &self.text
        }
    }
}

/// Law: a hostname the platform accepted parses successfully and — as long
/// as its input text or its canonical name is non-empty — its textual form
/// is non-empty. (A platform that accepted an empty string and supplied no
/// canonical name would be the one value outside this law.)
pub proof fn lemma_display_text_nonempty(h: &Hostname)
    requires
        h.text_spec().len() > 0 || h.canonical_spec().len() > 0,
    ensures
        h.display_spec().len() > 0,
{
}

} // verus!
