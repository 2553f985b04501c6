//! The fixed, ordered table of candidate sources that the resolver
//! probes, and the derivation of candidate file paths from the raw
//! string a source yields.
//!
//! Sources are immutable, defined once, and tried in a fixed total
//! order: the persisted user override first, then the user-scoped
//! registry entries of the target application, then the machine-scoped
//! ones (covering 32-bit redirection and both naming generations).

use vstd::prelude::*;
use crate::text::{trimmed, joined, has_exe_ext, trim_spaces, join_path, chars_of, path_has_exe_ext};

verus! {

/// How many candidate sources the resolver probes.
pub const SOURCE_COUNT: usize = 7;

/// Which registry hive a source's store entry lives in.
#[derive(Clone, Copy, PartialEq, Eq, Structural, Debug)]
pub enum Hive {
    CurrentUser,
    LocalMachine,
}

/// The store entry a source reads: hive, subkey path, value name.
pub struct StoreQuery {
    pub hive: Hive,
    pub subkey: &'static str,
    pub value_name: &'static str,
}

/// The hive of source `i`.
pub open spec fn source_hive_spec(i: int) -> Hive {
    if i <= 2 {
        Hive::CurrentUser
    } else {
        Hive::LocalMachine
    }
}

/// The subkey path of source `i`.
pub open spec fn source_subkey_spec(i: int) -> Seq<char> {
    if i == 0 {
        "Software\\QuickLauncher\\Weixin"@
    } else if i == 1 || i == 2 {
        "Software\\Tencent\\Weixin"@
    } else if i == 3 {
        "SOFTWARE\\Tencent\\WeChat"@
    } else if i == 4 {
        "SOFTWARE\\WOW6432Node\\Tencent\\WeChat"@
    } else if i == 5 {
        "SOFTWARE\\Tencent\\Weixin"@
    } else {
        "SOFTWARE\\WOW6432Node\\Tencent\\Weixin"@
    }
}

/// The value name of source `i`.
pub open spec fn source_value_spec(i: int) -> Seq<char> {
    if i == 0 {
        "UserSpecifiedPath"@
    } else if i == 2 {
        "Path"@
    } else {
        "InstallPath"@
    }
}

/// The store entry that source `i` reads, in the fixed priority order:
/// the launcher's own persisted override, the user-scoped install
/// entries (`InstallPath`, then `Path`), then the machine-scoped
/// entries of both naming generations, plain and 32-bit-redirected.
pub fn source_query(i: usize) -> (q: StoreQuery)
    requires
        i < SOURCE_COUNT,
    ensures
        q.hive == source_hive_spec(i as int),
        q.subkey@ == source_subkey_spec(i as int),
        q.value_name@ == source_value_spec(i as int),
{
    if i == 0 {
        StoreQuery {
            hive: Hive::CurrentUser,
            subkey: "Software\\QuickLauncher\\Weixin",
            value_name: "UserSpecifiedPath",
        }
    } else if i == 1 {
        StoreQuery {
            hive: Hive::CurrentUser,
            subkey: "Software\\Tencent\\Weixin",
            value_name: "InstallPath",
        }
    } else if i == 2 {
        StoreQuery {
            hive: Hive::CurrentUser,
            subkey: "Software\\Tencent\\Weixin",
            value_name: "Path",
        }
    } else if i == 3 {
        StoreQuery {
            hive: Hive::LocalMachine,
            subkey: "SOFTWARE\\Tencent\\WeChat",
            value_name: "InstallPath",
        }
    } else if i == 4 {
        StoreQuery {
            hive: Hive::LocalMachine,
            subkey: "SOFTWARE\\WOW6432Node\\Tencent\\WeChat",
            value_name: "InstallPath",
        }
    } else if i == 5 {
        StoreQuery {
            hive: Hive::LocalMachine,
            subkey: "SOFTWARE\\Tencent\\Weixin",
            value_name: "InstallPath",
        }
    } else {
        StoreQuery {
            hive: Hive::LocalMachine,
            subkey: "SOFTWARE\\WOW6432Node\\Tencent\\Weixin",
            value_name: "InstallPath",
        }
    }
}

/// A human-readable label for source `i`, used in the diagnostic list
/// of attempted sources.
pub open spec fn source_description_spec(i: int) -> Seq<char> {
    if i == 0 {
        "  launcher override: HKEY_CURRENT_USER\\Software\\QuickLauncher\\Weixin\\UserSpecifiedPath"@
    } else if i == 1 {
        "  default registry: HKEY_CURRENT_USER\\Software\\Tencent\\Weixin\\InstallPath"@
    } else if i == 2 {
        "  default registry: HKEY_CURRENT_USER\\Software\\Tencent\\Weixin\\Path"@
    } else if i == 3 {
        "  registry: HKEY_LOCAL_MACHINE\\SOFTWARE\\Tencent\\WeChat\\InstallPath"@
    } else if i == 4 {
        "  registry: HKEY_LOCAL_MACHINE\\SOFTWARE\\WOW6432Node\\Tencent\\WeChat\\InstallPath"@
    } else if i == 5 {
        "  registry: HKEY_LOCAL_MACHINE\\SOFTWARE\\Tencent\\Weixin\\InstallPath"@
    } else {
        "  registry: HKEY_LOCAL_MACHINE\\SOFTWARE\\WOW6432Node\\Tencent\\Weixin\\InstallPath"@
    }
}

/// Runtime counterpart of [`source_description_spec`].
pub fn source_description(i: usize) -> (d: String)
    requires
        i < SOURCE_COUNT,
    ensures
        d@ == source_description_spec(i as int),
{
    if i == 0 {
        String::from_str(
            "  launcher override: HKEY_CURRENT_USER\\Software\\QuickLauncher\\Weixin\\UserSpecifiedPath",
        )
    } else if i == 1 {
        String::from_str(
            "  default registry: HKEY_CURRENT_USER\\Software\\Tencent\\Weixin\\InstallPath",
        )
    } else if i == 2 {
        String::from_str("  default registry: HKEY_CURRENT_USER\\Software\\Tencent\\Weixin\\Path")
    } else if i == 3 {
        String::from_str("  registry: HKEY_LOCAL_MACHINE\\SOFTWARE\\Tencent\\WeChat\\InstallPath")
    } else if i == 4 {
        String::from_str(
            "  registry: HKEY_LOCAL_MACHINE\\SOFTWARE\\WOW6432Node\\Tencent\\WeChat\\InstallPath",
        )
    } else if i == 5 {
        String::from_str("  registry: HKEY_LOCAL_MACHINE\\SOFTWARE\\Tencent\\Weixin\\InstallPath")
    } else {
        String::from_str(
            "  registry: HKEY_LOCAL_MACHINE\\SOFTWARE\\WOW6432Node\\Tencent\\Weixin\\InstallPath",
        )
    }
}

/// The fixed header of the resolution-failure report.
pub open spec fn report_header() -> Seq<char> {
    "The installation path was not found automatically.\nSources tried:\n"@
}

/// The resolution-failure report over the first `n` attempted sources:
/// the header, then one description line per source, in the exact
/// order they were tried.
pub open spec fn report_of(tried: Seq<usize>, n: int) -> Seq<char>
    decreases n,
{
    if n <= 0 {
        report_header()
    } else {
        report_of(tried, n - 1) + source_description_spec(tried[n - 1] as int) + "\n"@
    }
}

/// The diagnostic message shown when every source failed: deterministic
/// and reproducible, naming each attempted source in the order tried.
pub fn attempt_report(tried: &Vec<usize>) -> (r: String)
    requires
        forall|i: int| 0 <= i < tried@.len() ==> (#[trigger] tried@[i]) < SOURCE_COUNT,
    ensures
        r@ == report_of(tried@, tried@.len() as int),
{
    let mut r = String::from_str(
        "The installation path was not found automatically.\nSources tried:\n",
    );
    let mut i: usize = 0;
    while i < tried.len()
        invariant
            i <= tried@.len(),
            forall|k: int| 0 <= k < tried@.len() ==> (#[trigger] tried@[k]) < SOURCE_COUNT,
            r@ == report_of(tried@, i as int),
        decreases tried@.len() - i,
    {
        let d = source_description(tried[i]);
        r.append(d.as_str());
        r.append("\n");
        i = i + 1;
        proof {
            assert(r@ =~= report_of(tried@, i as int));
        }
    }
    r
}

/// The ordered candidate file paths that source `i` yields from the raw
/// store value `raw`.
///
/// A missing or (after trimming) empty value yields none.  The override
/// source trusts its trimmed value as-is.  Every other source treats
/// its value as a direct executable path only when it carries an `exe`
/// extension, and in every case also tries the value as an install
/// directory combined with the conventional executable names of both
/// naming generations, in order.
pub open spec fn candidates_spec(i: int, raw: Option<Seq<char>>) -> Seq<Seq<char>> {
    match raw {
        Option::None => Seq::empty(),
        Option::Some(v) => {
            let t = trimmed(v);
            if t.len() == 0 {
                Seq::empty()
            } else if i == 0 {
                seq![t]
            } else {
                let by_dir = seq![joined(t, "WeChat.exe"@), joined(t, "weixin.exe"@)];
                if has_exe_ext(t) {
                    seq![t] + by_dir
                } else {
                    by_dir
                }
            }
        },
    }
}

/// Runtime counterpart of [`candidates_spec`].
pub fn candidates_for(i: usize, raw: &Option<String>) -> (cs: Vec<String>)
    requires
        i < SOURCE_COUNT,
    ensures
        cs.deep_view() == candidates_spec(i as int, raw.deep_view()),
{
    let mut cs: Vec<String> = Vec::new();
    match raw {
        Option::None => {
            proof {
                assert(cs.deep_view() =~= candidates_spec(i as int, raw.deep_view()));
            }
        },
        Option::Some(v) => {
            let t = trim_spaces(v.as_str());
            if t.as_str().is_empty() {
                proof {
                    assert(cs.deep_view() =~= candidates_spec(i as int, raw.deep_view()));
                }
            } else if i == 0 {
                cs.push(t);
                proof {
                    assert(cs.deep_view() =~= candidates_spec(i as int, raw.deep_view()));
                }
            } else {
                let tc = chars_of(t.as_str());
                if path_has_exe_ext(&tc) {
                    cs.push(t.clone());
                }
                cs.push(join_path(t.as_str(), "WeChat.exe"));
                cs.push(join_path(t.as_str(), "weixin.exe"));
                proof {
                    assert(cs.deep_view() =~= candidates_spec(i as int, raw.deep_view()));
                }
            }
        },
    }
    cs
}

} // verus!
