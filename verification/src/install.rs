//! The texts of the application bundle installer: the bundle's property list
//! and the reading of the user's confirmation.
use vstd::prelude::*;

use crate::text::{chars_of, trim_str, trim_ws};

verus! {

/// The property list up to the first version number.
pub open spec fn plist_head() -> Seq<char> {
    "<?xml version=\"1.0\" encoding=\"UTF-8\"?>\n<!DOCTYPE plist PUBLIC \"-//Apple//DTD PLIST 1.0//EN\" \"http://www.apple.com/DTDs/PropertyList-1.0.dtd\">\n<plist version=\"1.0\">\n<dict>\n    <key>CFBundleName</key>\n    <string>OSX Scrobbler</string>\n    <key>CFBundleDisplayName</key>\n    <string>OSX Scrobbler</string>\n    <key>CFBundleIdentifier</key>\n    <string>com.osxscrobbler</string>\n    <key>CFBundleVersion</key>\n    <string>"@
}

/// The property list between the two version numbers.
pub open spec fn plist_middle() -> Seq<char> {
    "</string>\n    <key>CFBundleShortVersionString</key>\n    <string>"@
}

/// The property list after the second version number.
pub open spec fn plist_tail() -> Seq<char> {
    "</string>\n    <key>CFBundlePackageType</key>\n    <string>APPL</string>\n    <key>CFBundleExecutable</key>\n    <string>osx-scrobbler</string>\n    <key>CFBundleIconFile</key>\n    <string>UniversalScrobbler</string>\n    <key>LSUIElement</key>\n    <true/>\n    <key>LSMinimumSystemVersion</key>\n    <string>10.15</string>\n    <key>NSHighResolutionCapable</key>\n    <true/>\n</dict>\n</plist>"@
}

/// The `Info.plist` of the application bundle for a version: the template
/// with both version placeholders filled in.
pub open spec fn plist_text(version: Seq<char>) -> Seq<char> {
    plist_head() + version + plist_middle() + version + plist_tail()
}

/// The `Info.plist` of the application bundle for `version`.
pub fn info_plist(version: &str) -> (r: String)
    ensures
        r@ == plist_text(version@),
{
    let mut s = String::from_str(
        "<?xml version=\"1.0\" encoding=\"UTF-8\"?>\n<!DOCTYPE plist PUBLIC \"-//Apple//DTD PLIST 1.0//EN\" \"http://www.apple.com/DTDs/PropertyList-1.0.dtd\">\n<plist version=\"1.0\">\n<dict>\n    <key>CFBundleName</key>\n    <string>OSX Scrobbler</string>\n    <key>CFBundleDisplayName</key>\n    <string>OSX Scrobbler</string>\n    <key>CFBundleIdentifier</key>\n    <string>com.osxscrobbler</string>\n    <key>CFBundleVersion</key>\n    <string>",
    );
    s.append(version);
    s.append("</string>\n    <key>CFBundleShortVersionString</key>\n    <string>");
    s.append(version);
    s.append(
        "</string>\n    <key>CFBundlePackageType</key>\n    <string>APPL</string>\n    <key>CFBundleExecutable</key>\n    <string>osx-scrobbler</string>\n    <key>CFBundleIconFile</key>\n    <string>UniversalScrobbler</string>\n    <key>LSUIElement</key>\n    <true/>\n    <key>LSMinimumSystemVersion</key>\n    <string>10.15</string>\n    <key>NSHighResolutionCapable</key>\n    <true/>\n</dict>\n</plist>",
    );
    s
}

/// The answer, once trimmed, is `y` in either case.
pub open spec fn is_yes(answer: Seq<char>) -> bool {
    trim_ws(answer) == seq!['y'] || trim_ws(answer) == seq!['Y']
}

/// Whether the user's answer to a `[y/N]` question confirms (anything but a
/// `y` or `Y`, surrounding white space aside, declines).
pub fn confirms(answer: &str) -> (r: bool)
    ensures
        r == is_yes(answer@),
{
    let trimmed = trim_str(answer);
    let chars = chars_of(trimmed.as_str());
    if chars.len() != 1 {
        return false;
    }
    let c = chars[0];
    let r = c == 'y' || c == 'Y';
    proof {
        if r {
            assert(chars@ =~= seq![c]);
        }
    }
    r
}

} // verus!
