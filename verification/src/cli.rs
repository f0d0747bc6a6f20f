//! What the launcher reads off its command line before any window or
//! listener exists: the initial document argument, the control-bus switch,
//! and the fallback shared secret.

use vstd::prelude::*;
use vstd::string::*;

verus! {

/// A command-line token is a flag when it starts with `-`.
pub open spec fn is_flag(s: Seq<char>) -> bool {
    s.len() > 0 && s[0] == '-'
}

/// Does this token start with `-`?
fn is_flag_arg(s: &String) -> (r: bool)
    ensures
        r == is_flag(s@),
{
    let st: &str = s.as_str();
    let n: usize = st.unicode_len();
    if n == 0 {
        false
    } else {
        st.get_char(0) == '-'
    }
}

/// The first argument after the binary name that is not a flag: the document
/// the launcher was asked to open, if any.
pub fn find_file_argument(args: &Vec<String>) -> (r: Option<&String>)
    ensures
        match r {
            Option::Some(s) => exists|i: int|
                1 <= i < args@.len() && (#[trigger] args@[i])@ == s@ && !is_flag(s@) && (forall|
                    j: int,
                |
                    1 <= j < i ==> is_flag((#[trigger] args@[j])@)),
            Option::None => forall|i: int| 1 <= i < args@.len() ==> is_flag((#[trigger] args@[i])@),
        },
{
    let mut i: usize = 1;
    while i < args.len()
        invariant
            1 <= i,
            forall|j: int| 1 <= j < i ==> is_flag((#[trigger] args@[j])@),
        decreases args@.len() - i,
    {
        if !is_flag_arg(&args[i]) {
            return Option::Some(&args[i]);
        }
        i += 1;
    }
    Option::None
}

/// Does the command line ask for the control-bus listener? The environment
/// may ask for it as well; that decision lies with the launcher.
pub fn wants_control_bus(args: &Vec<String>) -> (r: bool)
    ensures
        r == exists|i: int| 0 <= i < args@.len() && (#[trigger] args@[i])@ == "--control-bus"@,
{
    let flag: String = "--control-bus".to_owned();
    let mut i: usize = 0;
    while i < args.len()
        invariant
            0 <= i <= args@.len(),
            flag@ == "--control-bus"@,
            forall|j: int| 0 <= j < i ==> (#[trigger] args@[j])@ != "--control-bus"@,
        decreases args@.len() - i,
    {
        if args[i] == flag {
            return true;
        }
        i += 1;
    }
    false
}

/// The development fallback for the shared secret, used when the launcher's
/// environment supplies none.
pub fn default_auth_token() -> (r: String)
    ensures
        r@ == "dev-token-12345"@,
{
    "dev-token-12345".to_owned()
}

} // verus!
