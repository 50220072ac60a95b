//! Icon entries of the manifest's `icons` array.

use vstd::prelude::*;

use crate::media_type::ext_of;
use crate::media_type::extension_of;
use crate::media_type::media_type_for_ext;
use crate::media_type::mime_of;

verus! {

/// The three serialized attributes of an icon, as character sequences.
#[verifier::ext_equal]
pub ghost struct IconView {
    /// Source URL or path of the icon.
    pub src: Seq<char>,
    /// Sizes string in `WIDTHxHEIGHT` form.
    pub sizes: Seq<char>,
    /// Media type inferred from the extension of `src`; serialized key `type`.
    pub icon_type: Seq<char>,
}

/// An icon of the web application, added to the manifest with
/// [`crate::Manifest::icon`]. Immutable once constructed.
#[derive(Debug)]
pub struct Icon {
    pub(crate) src: String,
    pub(crate) sizes: String,
    pub(crate) icon_type: String,
}

impl View for Icon {
    type V = IconView;

    open(crate) spec fn view(&self) -> IconView {
        IconView { src: self.src@, sizes: self.sizes@, icon_type: self.icon_type@ }
    }
}

impl Clone for Icon {
    /// Field-for-field copy.
    fn clone(&self) -> (r: Self)
        ensures
            r@ == self@,
    {
        Icon { src: self.src.clone(), sizes: self.sizes.clone(), icon_type: self.icon_type.clone() }
    }
}

impl Icon {
    /// Create a new `Icon`. `src` and `sizes` are stored verbatim; the media
    /// type is inferred from the extension of `src`, with
    /// `application/octet-stream` when `src` has no extension.
    #[must_use]
    pub fn new(src: &str, sizes: &str) -> (r: Self)
        ensures
            r@.src == src@,
            r@.sizes == sizes@,
            r@.icon_type == mime_of(ext_of(src@)),
            ext_of(src@).len() == 0 ==> r@.icon_type == "application/octet-stream"@,
    {
        let ext = extension_of(src);
        let icon_type = media_type_for_ext(ext.as_str());
        Icon { src: src.to_owned(), sizes: sizes.to_owned(), icon_type }
    }
}

} // verus!
