//! Choosing the configuration file path: a `--conf=` command-line
//! argument wins, then the environment value, then the built-in default.
//! The surrounding program collects the arguments and the environment
//! variable and prints the result; the choice itself is made here.

use vstd::prelude::*;
use vstd::string::StrSliceExecFns;

verus! {

/// Why no path could be chosen.
#[derive(Debug, Clone, Copy, PartialEq, Eq, Structural)]
pub enum ConfigPathError {
    /// A `--conf=` argument was given with an empty path.
    EmptyConfArg,
}

/// Whether `s` starts with the seven characters of a `--conf=` marker.
pub open spec fn spec_has_conf_prefix(s: Seq<char>) -> bool {
    s.len() >= 7 && s.subrange(0, 7) == "--conf="@
}

/// The value of a `--conf=` argument: what follows the marker.
pub open spec fn spec_conf_value(s: Seq<char>) -> Seq<char> {
    s.skip(7)
}

fn has_conf_prefix(s: &str) -> (r: bool)
    ensures
        r == spec_has_conf_prefix(s@),
{
    proof {
        reveal_strlit("--conf=");
    }
    let n = s.unicode_len();
    if n < 7 {
        return false;
    }
    let marker = "--conf=";
    let mut k: usize = 0;
    while k < 7
        invariant
            k <= 7,
            n == s@.len(),
            n >= 7,
            marker@ == "--conf="@,
            marker@.len() == 7,
            forall|j: int| 0 <= j < k ==> s@[j] == #[trigger] marker@[j],
        decreases 7 - k,
    {
        if s.get_char(k) != marker.get_char(k) {
            proof {
                if spec_has_conf_prefix(s@) {
                    assert(s@.subrange(0, 7)[k as int] == marker@[k as int]);
                }
            }
            return false;
        }
        k = k + 1;
    }
    proof {
        assert(s@.subrange(0, 7) =~= marker@);
    }
    true
}

/// The chosen path for the given command-line arguments and environment
/// value: the first `--conf=` argument wins (an empty one is an error),
/// then a non-empty environment value, then the built-in default.
pub open spec fn spec_chosen_path(
    args: Seq<Seq<char>>,
    env_value: Option<Seq<char>>,
) -> Result<Seq<char>, ConfigPathError> {
    if exists|i: int| 0 <= i < args.len() && spec_has_conf_prefix(#[trigger] args[i]) {
        let i = choose|i: int|
            0 <= i < args.len() && spec_has_conf_prefix(#[trigger] args[i]) && (forall|j: int|
                0 <= j < i ==> !spec_has_conf_prefix(#[trigger] args[j]));
        if spec_conf_value(args[i]).len() == 0 {
            Err(ConfigPathError::EmptyConfArg)
        } else {
            Ok(spec_conf_value(args[i]))
        }
    } else {
        match env_value {
            Some(v) => {
                if v.len() > 0 {
                    Ok(v)
                } else {
                    Ok("/etc/app/app.conf"@)
                }
            },
            None => Ok("/etc/app/app.conf"@),
        }
    }
}

/// Chooses the configuration path.
pub fn choose_config_path(args: &Vec<String>, env_value: Option<String>) -> (r: Result<
    String,
    ConfigPathError,
>)
    ensures
        match r {
            Ok(p) => spec_chosen_path(args@.map_values(|a: String| a@), env_value_view(env_value))
                matches Ok(v) && p@ == v,
            Err(e) => spec_chosen_path(args@.map_values(|a: String| a@), env_value_view(env_value))
                == Err::<Seq<char>, ConfigPathError>(e),
        },
{
    let ghost views: Seq<Seq<char>> = args@.map_values(|a: String| a@);
    let n = args.len();
    let mut i: usize = 0;
    while i < n
        invariant
            i <= n,
            n == views.len(),
            views == args@.map_values(|a: String| a@),
            forall|j: int| 0 <= j < i ==> !spec_has_conf_prefix(#[trigger] views[j]),
        decreases n - i,
    {
        proof {
            assert(views[i as int] == args@[i as int]@);
        }
        if has_conf_prefix(args[i].as_str()) {
            let s = args[i].as_str();
            let path = s.substring_char(7, s.unicode_len());
            proof {
                assert(path@ =~= spec_conf_value(views[i as int]));
                let w = choose|w: int|
                    0 <= w < views.len() && spec_has_conf_prefix(#[trigger] views[w]) && (forall|j: int|
                        0 <= j < w ==> !spec_has_conf_prefix(#[trigger] views[j]));
                assert(spec_has_conf_prefix(views[i as int]));
                assert(w == i) by {
                    if w < i {
                        assert(!spec_has_conf_prefix(views[w]));
                    }
                    if w > i {
                        assert(!spec_has_conf_prefix(views[i as int]));
                    }
                }
            }
            if path.unicode_len() == 0 {
                return Err(ConfigPathError::EmptyConfArg);
            }
            return Ok(path.to_owned());
        }
        i = i + 1;
    }
    proof {
        assert(forall|j: int| 0 <= j < views.len() ==> !spec_has_conf_prefix(#[trigger] views[j]));
    }
    match env_value {
        Some(v) => {
            if v.as_str().unicode_len() > 0 {
                Ok(v)
            } else {
                Ok("/etc/app/app.conf".to_owned())
            }
        },
        None => Ok("/etc/app/app.conf".to_owned()),
    }
}

/// The environment value as a character sequence.
pub open spec fn env_value_view(v: Option<String>) -> Option<Seq<char>> {
    match v {
        Some(s) => Some(s@),
        None => None,
    }
}

} // verus!
