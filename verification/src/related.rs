//! Entries of the manifest's `related_applications` array.

use vstd::prelude::*;

verus! {

/// The two serialized attributes of a related application.
#[verifier::ext_equal]
pub ghost struct RelatedView {
    /// Platform identifier, such as `play` or `itunes`.
    pub platform: Seq<char>,
    /// URL under which the application is found on that platform.
    pub url: Seq<char>,
}

/// A native application related to the web application, installable from the
/// named platform; added to the manifest with [`crate::Manifest::related`].
/// Immutable once constructed.
#[derive(Debug)]
pub struct Related {
    pub(crate) platform: String,
    pub(crate) url: String,
}

impl View for Related {
    type V = RelatedView;

    open(crate) spec fn view(&self) -> RelatedView {
        RelatedView { platform: self.platform@, url: self.url@ }
    }
}

impl Clone for Related {
    /// Field-for-field copy.
    fn clone(&self) -> (r: Self)
        ensures
            r@ == self@,
    {
        Related { platform: self.platform.clone(), url: self.url.clone() }
    }
}

impl Related {
    /// Create a new `Related` entry; both attributes are stored verbatim.
    #[must_use]
    pub fn new(platform: &str, url: &str) -> (r: Self)
        ensures
            r@.platform == platform@,
            r@.url == url@,
    {
        Related { platform: platform.to_owned(), url: url.to_owned() }
    }
}

} // verus!
