//! The configuration loader: scans the process argument list for the three
//! required flag/value pairs `-key`, `-zip` and `-unit`, in any order, later
//! occurrences overriding earlier ones, and builds the validated
//! configuration.

use vstd::prelude::*;
use crate::text::str_eq;
use crate::unit::{Unit, unit_of_token};

verus! {

broadcast use vstd::string::group_string_axioms;

/// The validated configuration: API key, location query and temperature unit.
#[derive(Debug)]
pub struct Config {
    pub key: String,
    pub zipcode: String,
    pub temp_unit: Unit,
}

/// Why loading the configuration failed.
#[derive(Clone, Copy, PartialEq, Eq, Structural, Debug)]
pub enum ConfigError {
    /// The argument list does not hold exactly the three flag/value pairs,
    /// or one of the three required values is missing.
    Usage,
    /// A `-unit` value is not a recognized unit token.
    BadUnit,
}

/// The value of the given flag among the first `n` arguments: the argument
/// following the last occurrence of the flag at an index `i` with
/// `1 <= i < n` and `i + 1 < a.len()`.
pub open spec fn flag_val_upto(a: Seq<Seq<char>>, flag: Seq<char>, n: int) -> Option<Seq<char>>
    decreases n,
{
    if n <= 1 {
        None
    } else if a[n - 1] == flag && n < a.len() {
        Some(a[n])
    } else {
        flag_val_upto(a, flag, n - 1)
    }
}

/// The value of the given flag over the whole argument list.
pub open spec fn flag_val(a: Seq<Seq<char>>, flag: Seq<char>) -> Option<Seq<char>> {
    flag_val_upto(a, flag, a.len() as int)
}

/// Whether some `-unit` occurrence among the first `n` arguments carries a
/// value that is not a recognized unit token.
pub open spec fn bad_unit_upto(a: Seq<Seq<char>>, n: int) -> bool
    decreases n,
{
    if n <= 1 {
        false
    } else {
        bad_unit_upto(a, n - 1) || (a[n - 1] == "-unit"@ && n < a.len() && unit_of_token(a[n])
            is None)
    }
}

/// Whether some `-unit` occurrence anywhere in the argument list carries an
/// unrecognized value.
pub open spec fn bad_unit(a: Seq<Seq<char>>) -> bool {
    bad_unit_upto(a, a.len() as int)
}

/// Whether the argument list yields a complete configuration: exactly the
/// program name plus three flag/value pairs, all three values present, and
/// every `-unit` value recognized.
pub open spec fn args_complete(a: Seq<Seq<char>>) -> bool {
    &&& !bad_unit(a)
    &&& a.len() == 7
    &&& flag_val(a, "-key"@) is Some
    &&& flag_val(a, "-zip"@) is Some
    &&& flag_val(a, "-unit"@) is Some
}

impl Config {
    /// Reads the configuration from the argument list (the program name
    /// first, as handed to the process).  An unrecognized `-unit` value is a
    /// fatal unit error; otherwise anything other than exactly the three
    /// flag/value pairs is a usage error.  Unrecognized flags are ignored.
    pub fn from_args(args: &Vec<String>) -> (r: Result<Config, ConfigError>)
        ensures
            match r {
                Ok(c) => {
                    &&& args_complete(args.deep_view())
                    &&& Some(c.key@) == flag_val(args.deep_view(), "-key"@)
                    &&& Some(c.zipcode@) == flag_val(args.deep_view(), "-zip"@)
                    &&& Some(c.temp_unit) == unit_of_token(
                        flag_val(args.deep_view(), "-unit"@).unwrap(),
                    )
                },
                Err(ConfigError::BadUnit) => bad_unit(args.deep_view()),
                Err(ConfigError::Usage) => !bad_unit(args.deep_view()) && !args_complete(
                    args.deep_view(),
                ),
            },
    {
        proof {
            reveal_strlit("-key");
            reveal_strlit("-zip");
            reveal_strlit("-unit");
        }
        let ghost a = args.deep_view();
        let mut key: Option<String> = None;
        let mut zipcode: Option<String> = None;
        let mut temp_unit: Option<Unit> = None;
        let mut unit_token: Option<String> = None;
        let mut i: usize = 1;
        while i < args.len()
            invariant
                a == args.deep_view(),
                a.len() == args@.len(),
                forall|k: int| 0 <= k < a.len() ==> a[k] == #[trigger] args@[k]@,
                1 <= i,
                i <= a.len() || i == 1,
                !bad_unit_upto(a, i as int),
                match key {
                    Some(ref k) => flag_val_upto(a, "-key"@, i as int) == Some(k@),
                    None => flag_val_upto(a, "-key"@, i as int) is None,
                },
                match zipcode {
                    Some(ref z) => flag_val_upto(a, "-zip"@, i as int) == Some(z@),
                    None => flag_val_upto(a, "-zip"@, i as int) is None,
                },
                match unit_token {
                    Some(ref t) => flag_val_upto(a, "-unit"@, i as int) == Some(t@)
                        && temp_unit == unit_of_token(t@) && temp_unit is Some,
                    None => flag_val_upto(a, "-unit"@, i as int) is None && temp_unit is None,
                },
            decreases args.len() - i,
        {
            proof {
                reveal_strlit("-key");
                reveal_strlit("-zip");
                reveal_strlit("-unit");
                // The three flag literals differ pairwise in their second
                // character, so matching one flag leaves the others' values
                // untouched.
                assert("-key"@[1] == 'k' && "-zip"@[1] == 'z' && "-unit"@[1] == 'u');
            }
            if i + 1 < args.len() {
                if str_eq(args[i].as_str(), "-key") {
                    key = Some(args[i + 1].clone());
                } else if str_eq(args[i].as_str(), "-zip") {
                    zipcode = Some(args[i + 1].clone());
                } else if str_eq(args[i].as_str(), "-unit") {
                    match Unit::from_token(args[i + 1].as_str()) {
                        Some(u) => {
                            temp_unit = Some(u);
                            unit_token = Some(args[i + 1].clone());
                        },
                        None => {
                            proof {
                                assert(bad_unit_upto(a, i + 1));
                                lemma_bad_unit_monotonic(a, i + 1, a.len() as int);
                            }
                            return Err(ConfigError::BadUnit);
                        },
                    }
                }
            }
            i = i + 1;
        }
        if args.len() != 7 || key.is_none() || zipcode.is_none() || temp_unit.is_none() {
            return Err(ConfigError::Usage);
        }
        Ok(
            Config {
                key: key.unwrap(),
                zipcode: zipcode.unwrap(),
                temp_unit: temp_unit.unwrap(),
            },
        )
    }
}

/// A bad `-unit` occurrence below `m` is still one below `n >= m`.
proof fn lemma_bad_unit_monotonic(a: Seq<Seq<char>>, m: int, n: int)
    requires
        m <= n,
        bad_unit_upto(a, m),
    ensures
        bad_unit_upto(a, n),
    decreases n,
{
    if n > m {
        lemma_bad_unit_monotonic(a, m, n - 1);
    }
}

/// The usage line reported on a malformed argument list.
pub fn usage_line() -> (r: String)
    ensures
        r@ == "Usage: waybar-weather -key <API_KEY> -zip <ZIP_CODE> -unit <UNIT>"@,
{
    crate::text::string_of(
        &crate::text::chars_of("Usage: waybar-weather -key <API_KEY> -zip <ZIP_CODE> -unit <UNIT>"),
    )
}

} // verus!
