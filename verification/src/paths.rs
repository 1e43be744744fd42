//! Where plugin bundles and their libraries live.

use vstd::prelude::*;
use vstd::string::StringExecFns;
use vstd::string::StrSliceExecFns;
use crate::strmap::StrMap;

verus! {

/// The operating systems the host knows bundle layouts for.
#[derive(Copy, Clone, Debug, PartialEq, Eq, Structural)]
pub enum TargetOs {
    Linux,
    Windows,
    MacOs,
}

/// The directory where bundles are installed, with a trailing slash.
pub open spec fn plugin_dir(os: TargetOs) -> &'static str {
    match os {
        TargetOs::Windows => "C:/Program Files/Common Files/OFX/Plugins/",
        TargetOs::Linux => "/usr/OFX/Plugins/",
        TargetOs::MacOs => "/Library/OFX/Plugins/",
    }
}

/// The path of the bundle called `bundle_name`.
pub fn bundle_path(os: TargetOs, bundle_name: &str) -> (r: String)
    ensures
        r@ == plugin_dir(os)@ + bundle_name@ + ".ofx.bundle"@,
{
    let dir: &'static str = match os {
        TargetOs::Windows => "C:/Program Files/Common Files/OFX/Plugins/",
        TargetOs::Linux => "/usr/OFX/Plugins/",
        TargetOs::MacOs => "/Library/OFX/Plugins/",
    };
    let mut s = dir.to_owned();
    s.append(bundle_name);
    s.append(".ofx.bundle");
    s
}

/// The directory inside a bundle that holds the library for `os`.
pub open spec fn library_dir(os: TargetOs) -> &'static str {
    match os {
        TargetOs::Linux => "Contents/Linux-x86-64",
        TargetOs::Windows => "Contents/Win64",
        TargetOs::MacOs => "Contents/MacOS",
    }
}

/// True when `c` separates the parts of a path on `os`: `/`, and on
/// Windows also `\\`.
pub open spec fn is_separator(os: TargetOs, c: char) -> bool {
    c == '/' || (os == TargetOs::Windows && c == '\\')
}

/// The separator `os` puts between two parts of a path.
pub open spec fn separator(os: TargetOs) -> char {
    if os == TargetOs::Windows {
        '\\'
    } else {
        '/'
    }
}

/// True when `c` can name a Windows drive.
pub open spec fn is_drive_letter(c: char) -> bool {
    ('a' <= c && c <= 'z') || ('A' <= c && c <= 'Z')
}

/// True when `p` starts with a drive prefix (`X:`) on `os`.
pub open spec fn has_drive(os: TargetOs, p: Seq<char>) -> bool {
    os == TargetOs::Windows && p.len() >= 2 && is_drive_letter(p[0]) && p[1] == ':'
}

/// True when `rel` replaces a path it is joined to on `os`: on Windows
/// when it starts with a drive or with two separators (a share or
/// device prefix).
pub open spec fn replaces_base(os: TargetOs, rel: Seq<char>) -> bool {
    ||| has_drive(os, rel)
    ||| os == TargetOs::Windows && rel.len() >= 2 && is_separator(os, rel[0]) && is_separator(
        os,
        rel[1],
    )
}

/// `base` extended by `rel` as a path join on `os` does:
/// - a `rel` that replaces the base is taken as it is;
/// - a `rel` starting with a separator (a root) replaces the base, but
///   on Windows keeps the base's drive;
/// - otherwise `os`'s separator is put between them, unless `base` is
///   empty, ends in a separator or is only a drive.
pub open spec fn joined(os: TargetOs, base: Seq<char>, rel: Seq<char>) -> Seq<char> {
    if replaces_base(os, rel) {
        rel
    } else if rel.len() > 0 && is_separator(os, rel[0]) {
        if has_drive(os, base) {
            base.take(2) + rel
        } else {
            rel
        }
    } else if base.len() == 0 || (has_drive(os, base) && base.len() == 2) {
        base + rel
    } else if is_separator(os, base.last()) {
        base + rel
    } else {
        base + seq![separator(os)] + rel
    }
}

fn separator_on(windows: bool, c: char) -> (r: bool)
    ensures
        r == (c == '/' || (windows && c == '\\')),
{
    c == '/' || (windows && c == '\\')
}

fn drive_at_start(windows: bool, p: &str) -> (r: bool)
    ensures
        r == (windows && p@.len() >= 2 && is_drive_letter(p@[0]) && p@[1] == ':'),
{
    if !windows || p.unicode_len() < 2 {
        return false;
    }
    let c = p.get_char(0);
    (('a' <= c && c <= 'z') || ('A' <= c && c <= 'Z')) && p.get_char(1) == ':'
}

/// Joins two paths by the conventions of `os`.
pub fn join_path(os: TargetOs, base: &str, rel: &str) -> (r: String)
    ensures
        r@ == joined(os, base@, rel@),
{
    let rn = rel.unicode_len();
    let bn = base.unicode_len();
    let windows = match os {
        TargetOs::Windows => true,
        _ => false,
    };
    let share = windows && rn >= 2 && separator_on(windows, rel.get_char(0)) && separator_on(
        windows,
        rel.get_char(1),
    );
    if drive_at_start(windows, rel) || share {
        return rel.to_owned();
    }
    let base_drive = drive_at_start(windows, base);
    if rn > 0 && separator_on(windows, rel.get_char(0)) {
        if base_drive {
            let mut s = base.substring_char(0, 2).to_owned();
            s.append(rel);
            return s;
        } else {
            return rel.to_owned();
        }
    }
    if bn == 0 || (base_drive && bn == 2) || separator_on(windows, base.get_char(bn - 1)) {
        let mut s = base.to_owned();
        s.append(rel);
        s
    } else if windows {
        let mut s = base.to_owned();
        proof {
            reveal_strlit("\\");
        }
        s.append("\\");
        s.append(rel);
        s
    } else {
        let mut s = base.to_owned();
        proof {
            reveal_strlit("/");
        }
        s.append("/");
        s.append(rel);
        s
    }
}

/// The path of a bundle's property list on `os`.
pub fn plist_path(os: TargetOs, bundle: &str) -> (r: String)
    ensures
        r@ == joined(os, bundle@, "Contents/Info.plist"@),
{
    join_path(os, bundle, "Contents/Info.plist")
}

/// A value of a bundle's property list, as far as the host reads it.
pub enum PlistEntry {
    String(String),
    /// Any value that is not a string.
    Other,
}

/// A bundle's property list, as far as the host reads it.
pub enum PlistInfo {
    /// The list is a dictionary: its entries by key.
    Dictionary(StrMap<PlistEntry>),
    /// The list is not a dictionary.
    Other,
}

/// Why a bundle's library cannot be located.
#[derive(Copy, Clone, Debug, PartialEq, Eq, Structural)]
pub enum BundleError {
    MalformedPlist,
    ExecutableNotFound,
    ExecutableNotAString,
}

/// The key of the library's file name in a bundle's property list.
pub const BUNDLE_EXECUTABLE_KEY: &'static str = "CFBundleExecutable";

impl BundleError {
    /// The error's message.
    pub fn message(&self) -> (r: &'static str)
        ensures
            r == (match *self {
                BundleError::MalformedPlist => "Malformed plist",
                BundleError::ExecutableNotFound => "CFBundleExecutable not found in plist",
                BundleError::ExecutableNotAString => "CFBundleExecutable is not a string",
            }),
    {
        match self {
            BundleError::MalformedPlist => "Malformed plist",
            BundleError::ExecutableNotFound => "CFBundleExecutable not found in plist",
            BundleError::ExecutableNotAString => "CFBundleExecutable is not a string",
        }
    }
}

/// The path of a bundle's library: the file named by the bundle's
/// `CFBundleExecutable`, in the bundle's directory for `os`.
pub fn library_path(bundle: &str, os: TargetOs, plist: &PlistInfo) -> (r: Result<String, BundleError>)
    ensures
        match plist {
            PlistInfo::Other => r == Err::<String, BundleError>(BundleError::MalformedPlist),
            PlistInfo::Dictionary(d) => {
                if !d@.contains_key(BUNDLE_EXECUTABLE_KEY@) {
                    r == Err::<String, BundleError>(BundleError::ExecutableNotFound)
                } else {
                    match d@[BUNDLE_EXECUTABLE_KEY@] {
                        PlistEntry::Other => r == Err::<String, BundleError>(
                            BundleError::ExecutableNotAString,
                        ),
                        PlistEntry::String(name) => r matches Ok(p) && p@ == joined(
                            os,
                            joined(os, bundle@, library_dir(os)@),
                            name@,
                        ),
                    }
                }
            },
        },
{
    match plist {
        PlistInfo::Other => Err(BundleError::MalformedPlist),
        PlistInfo::Dictionary(d) => match d.get(BUNDLE_EXECUTABLE_KEY) {
            None => Err(BundleError::ExecutableNotFound),
            Some(PlistEntry::Other) => Err(BundleError::ExecutableNotAString),
            Some(PlistEntry::String(name)) => {
                let sub: &'static str = match os {
                    TargetOs::Linux => "Contents/Linux-x86-64",
                    TargetOs::Windows => "Contents/Win64",
                    TargetOs::MacOs => "Contents/MacOS",
                };
                let dir = join_path(os, bundle, sub);
                let p = join_path(os, dir.as_str(), name.as_str());
                Ok(p)
            },
        },
    }
}

/// A bundle's library lives in the OFX directory for the platform:
/// `Contents/Linux-x86-64` on Linux, `Contents/Win64` on Windows and
/// `Contents/MacOS` on macOS, so that `library_path` on a property list
/// naming `exe` gives `bundle/Contents/<dir>/exe` joined by `os`'s rules.
pub proof fn law_library_directories(os: TargetOs, bundle: Seq<char>, exe: Seq<char>)
    ensures
        library_dir(TargetOs::Linux)@ == "Contents/Linux-x86-64"@,
        library_dir(TargetOs::Windows)@ == "Contents/Win64"@,
        library_dir(TargetOs::MacOs)@ == "Contents/MacOS"@,
        os == TargetOs::Windows ==> joined(os, joined(os, bundle, library_dir(os)@), exe) == joined(
            os,
            joined(os, bundle, "Contents/Win64"@),
            exe,
        ),
        os == TargetOs::Linux ==> joined(os, joined(os, bundle, library_dir(os)@), exe) == joined(
            os,
            joined(os, bundle, "Contents/Linux-x86-64"@),
            exe,
        ),
        os == TargetOs::MacOs ==> joined(os, joined(os, bundle, library_dir(os)@), exe) == joined(
            os,
            joined(os, bundle, "Contents/MacOS"@),
            exe,
        ),
{
}

} // verus!
