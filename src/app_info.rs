//! Package identity: name, version, authors, description and the folder the
//! executable runs from.

use vstd::prelude::*;

use crate::document::opt_view;

verus! {

/// Identity of the running package, with defaults filled in.
pub struct AppInfo {
    pub package_name: &'static str,
    pub version: &'static str,
    pub authors: &'static str,
    pub description: &'static str,
    pub pkg_full_folder_path: Option<String>,
    pub pkg_root_folder_only: String,
}

/// Package metadata as the build reports it; any of it may be missing.
pub struct CargoPkg {
    pub pkg_name: Option<&'static str>,
    pub pkg_version: Option<&'static str>,
    pub pkg_authors: Option<&'static str>,
    pub pkg_desc: Option<&'static str>,
}

/// The directory that holds the running executable.
pub struct ExeDir {
    /// The directory's full path, where it is valid UTF-8.
    pub path: Option<String>,
    /// The directory's last component, where it has one; never empty, as
    /// `Path::file_name` yields no empty component.
    pub name: Option<String>,
}

/// Whether `c` has the Unicode property White_Space, as `char::is_whitespace`
/// decides.
pub open spec fn is_white_space(c: char) -> bool {
    let u = c as u32;
    (0x9 <= u <= 0xD) || u == 0x20 || u == 0x85 || u == 0xA0 || u == 0x1680 || (0x2000 <= u
        <= 0x200A) || u == 0x2028 || u == 0x2029 || u == 0x202F || u == 0x205F || u == 0x3000
}

/// The text without its leading white space.
pub open spec fn trim_start(s: Seq<char>) -> Seq<char>
    decreases s.len(),
{
    if s.len() > 0 && is_white_space(s[0]) {
        trim_start(s.drop_first())
    } else {
        s
    }
}

/// The text without its trailing white space.
pub open spec fn trim_end(s: Seq<char>) -> Seq<char>
    decreases s.len(),
{
    if s.len() > 0 && is_white_space(s.last()) {
        trim_end(s.drop_last())
    } else {
        s
    }
}

/// The text without leading and trailing white space.
pub open spec fn trimmed(s: Seq<char>) -> Seq<char> {
    trim_end(trim_start(s))
}

/// Relies on `str::trim`: the text without leading and trailing white space.
#[verifier::external_body]
fn trim_str(s: &str) -> (r: &str)
    ensures
        r@ == trimmed(s@),
{
    s.trim()
}

/// The part of a text before its first `'-'`: all of it where it has none.
pub open spec fn before_dash(s: Seq<char>) -> Seq<char>
    decreases s.len(),
{
    if s.len() == 0 {
        s
    } else if s[0] == '-' {
        Seq::empty()
    } else {
        seq![s[0]] + before_dash(s.drop_first())
    }
}

/// Whether the text holds no `'-'`.
pub open spec fn no_dash(s: Seq<char>) -> bool {
    forall|i: int| 0 <= i < s.len() ==> s[i] != '-'
}

/// Relies on `str::split_once` with the delimiter `'-'`: the text before and
/// after its first `'-'`, or `None` where it has none.
#[verifier::external_body]
fn split_at_dash(s: &str) -> (r: Option<(&str, &str)>)
    ensures
        match r {
            Some((before, after)) => s@ == before@ + seq!['-'] + after@ && no_dash(before@),
            None => no_dash(s@),
        },
{
    s.split_once('-')
}

proof fn lemma_before_dash_whole(s: Seq<char>)
    requires
        no_dash(s),
    ensures
        before_dash(s) == s,
    decreases s.len(),
{
    if s.len() > 0 {
        assert(s[0] != '-');
        lemma_before_dash_whole(s.drop_first());
        assert(seq![s[0]] + s.drop_first() =~= s);
    }
}

proof fn lemma_before_dash_prefix(before: Seq<char>, after: Seq<char>)
    requires
        no_dash(before),
    ensures
        before_dash(before + seq!['-'] + after) == before,
    decreases before.len(),
{
    let s = before + seq!['-'] + after;
    if before.len() == 0 {
        assert(s[0] == '-');
    } else {
        assert(s[0] == before[0]);
        assert(s.drop_first() =~= before.drop_first() + seq!['-'] + after);
        lemma_before_dash_prefix(before.drop_first(), after);
        assert(seq![before[0]] + before.drop_first() =~= before);
    }
}

/// The application name: the trimmed package name where one is given, else
/// the executable's file stem up to its first `'-'`, trimmed, else a fixed
/// placeholder.
pub open spec fn app_name_of(package_name: Option<&str>, exe_stem: Option<&str>) -> Seq<char> {
    let given = trimmed(
        match package_name {
            Some(n) => n@,
            None => Seq::empty(),
        },
    );
    if given.len() > 0 {
        given
    } else {
        let stem = match exe_stem {
            Some(s) => s@,
            None => "BT_UnkownApp"@,
        };
        let base = trimmed(before_dash(stem));
        if base.len() > 0 {
            base
        } else {
            "BT_UnkownApp"@
        }
    }
}

/// A metadata value where it is present and not empty, else `default`.
pub open spec fn present_or(value: Option<&str>, default: &str) -> Seq<char> {
    match value {
        Some(v) => if v@.len() > 0 {
            v@
        } else {
            default@
        },
        None => default@,
    }
}

/// The package name trimmed, or `"."` where nothing is left of it.
pub open spec fn folder_fallback(package_name: Seq<char>) -> Seq<char> {
    if trimmed(package_name).len() > 0 {
        trimmed(package_name)
    } else {
        seq!['.']
    }
}

/// The full folder path and the root folder name for a package whose
/// executable lies in `exe_dir`.
pub open spec fn exe_folders(package_name: Seq<char>, exe_dir: Option<ExeDir>) -> (
    Option<Seq<char>>,
    Seq<char>,
) {
    match exe_dir {
        Some(d) => (
            opt_view(d.path),
            match d.name {
                Some(n) => n@,
                None => folder_fallback(package_name),
            },
        ),
        None => (None, folder_fallback(package_name)),
    }
}

fn present_or_default(value: Option<&'static str>, default: &'static str) -> (r: &'static str)
    ensures
        r@ == present_or(value, default),
{
    match value {
        Some(v) => if v.is_empty() {
            default
        } else {
            v
        },
        None => default,
    }
}

/// Whether a directory's last component, where present, is not empty.
pub open spec fn exe_dir_named(exe_dir: Option<ExeDir>) -> bool {
    match exe_dir {
        Some(d) => match d.name {
            Some(n) => n@.len() > 0,
            None => true,
        },
        None => true,
    }
}

impl AppInfo {
    /// Fills each missing or empty metadata value with its default, and
    /// locates the package folder from the executable's directory.
    pub fn new(
        cargo_pkg: CargoPkg,
        default_name: &'static str,
        default_version: &'static str,
        default_authors: &'static str,
        default_desciption: &'static str,
        exe_dir: Option<ExeDir>,
    ) -> (r: Self)
        requires
            exe_dir_named(exe_dir),
        ensures
            r.package_name@ == present_or(cargo_pkg.pkg_name, default_name),
            r.version@ == present_or(cargo_pkg.pkg_version, default_version),
            r.authors@ == present_or(cargo_pkg.pkg_authors, default_authors),
            r.description@ == present_or(cargo_pkg.pkg_desc, default_desciption),
            (opt_view(r.pkg_full_folder_path), r.pkg_root_folder_only@) == exe_folders(
                r.package_name@,
                exe_dir,
            ),
            r.pkg_root_folder_only@.len() > 0,
    {
        let pkg_name = present_or_default(cargo_pkg.pkg_name, default_name);
        let pkg_version = present_or_default(cargo_pkg.pkg_version, default_version);
        let pkg_authors = present_or_default(cargo_pkg.pkg_authors, default_authors);
        let pkg_desc = present_or_default(cargo_pkg.pkg_desc, default_desciption);
        let (pkg_full_path, pkg_root) = Self::get_exe_dir_folder(pkg_name.to_owned(), exe_dir);
        AppInfo {
            package_name: pkg_name,
            version: pkg_version,
            authors: pkg_authors,
            description: pkg_desc,
            pkg_full_folder_path: pkg_full_path,
            pkg_root_folder_only: pkg_root,
        }
    }

    /// The full path of the executable's directory, and the name of that
    /// directory; the trimmed package name (or `"."`) stands in for a name
    /// that cannot be had.
    pub fn get_exe_dir_folder(package_name: String, exe_dir: Option<ExeDir>) -> (r: (
        Option<String>,
        String,
    ))
        requires
            exe_dir_named(exe_dir),
        ensures
            (opt_view(r.0), r.1@) == exe_folders(package_name@, exe_dir),
            r.1@.len() > 0,
    {
        let trimmed_name = trim_str(package_name.as_str());
        let pkg_name: &str = if !trimmed_name.is_empty() {
            trimmed_name
        } else {
            "."
        };
        proof {
            reveal_strlit(".");
        }
        match exe_dir {
            Some(dir) => {
                let root = match dir.name {
                    Some(n) => n,
                    None => pkg_name.to_owned(),
                };
                (dir.path, root)
            },
            None => (None, pkg_name.to_owned()),
        }
    }

    /// The application name: `package_name` trimmed where anything is left
    /// of it, else the base of the executable's file stem `exe_stem` (the
    /// part before its first `'-'`, trimmed), else `"BT_UnkownApp"`.
    pub fn get_app_name(package_name: Option<&str>, exe_stem: Option<&str>) -> (r: String)
        ensures
            r@ == app_name_of(package_name, exe_stem),
    {
        proof {
            reveal_strlit("");
        }
        let given = package_name.unwrap_or("");
        assert(given@ == match package_name {
            Some(n) => n@,
            None => Seq::<char>::empty(),
        });
        let pkg_name = trim_str(given);
        if !pkg_name.is_empty() {
            pkg_name.to_owned()
        } else {
            let stem = exe_stem.unwrap_or("BT_UnkownApp");
            let base: &str = match split_at_dash(stem) {
                Some((before, after)) => {
                    proof {
                        lemma_before_dash_prefix(before@, after@);
                    }
                    before
                },
                None => {
                    proof {
                        lemma_before_dash_whole(stem@);
                    }
                    stem
                },
            };
            assert(stem@ == match exe_stem {
                Some(s) => s@,
                None => "BT_UnkownApp"@,
            });
            let full_name = trim_str(base);
            if !full_name.is_empty() {
                full_name.to_owned()
            } else {
                "BT_UnkownApp".to_owned()
            }
        }
    }
}

} // verus!
