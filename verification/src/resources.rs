//! Embedded static resources.

use vstd::prelude::*;

verus! {

/// Content of the license-resource template written into the support
/// subdirectory of the staging tree. Fixed at build time and constant
/// across runs; never user-configurable at this layer.
pub open spec fn spec_support_template_content() -> Seq<char> {
    "<?xml version=\"1.0\" encoding=\"UTF-8\"?>\n<!DOCTYPE plist PUBLIC \"-//Apple//DTD PLIST 1.0//EN\" \"http://www.apple.com/DTDs/PropertyList-1.0.dtd\">\n<plist version=\"1.0\">\n<dict>\n\t<key>LPic</key>\n\t<array/>\n\t<key>STR#</key>\n\t<array/>\n\t<key>TEXT</key>\n\t<array/>\n</dict>\n</plist>\n"@
}

/// The license-resource template, as the host writes it to disk.
pub fn support_template_content() -> (r: &'static str)
    ensures
        r@ == spec_support_template_content(),
{
    "<?xml version=\"1.0\" encoding=\"UTF-8\"?>\n<!DOCTYPE plist PUBLIC \"-//Apple//DTD PLIST 1.0//EN\" \"http://www.apple.com/DTDs/PropertyList-1.0.dtd\">\n<plist version=\"1.0\">\n<dict>\n\t<key>LPic</key>\n\t<array/>\n\t<key>STR#</key>\n\t<array/>\n\t<key>TEXT</key>\n\t<array/>\n</dict>\n</plist>\n"
}

} // verus!
