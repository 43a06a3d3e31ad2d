use vstd::prelude::*;
use vstd::string::StrSliceExecFns;
use vstd::string::StringExecFns;
use vstd::string::View as StrView;

use crate::config::Config;

verus! {

/// Whether debug output is on: by the stored preference or by the
/// command-line switch.
pub open spec fn spec_verbose(c: Config) -> bool {
    c.verbose == Some(true) || c.args.verbose
}

/// How many trailing characters of a token stay readable.
pub open spec fn token_suffix_len() -> int {
    5
}

/// The redacted form of a token: a fixed run of `x` in place of the
/// body, then the token's last characters.
pub open spec fn redacted_chars(t: Seq<char>) -> Seq<char> {
    Seq::new(35, |i: int| 'x') + t.skip(
        if t.len() >= token_suffix_len() {
            t.len() - token_suffix_len()
        } else {
            0
        },
    )
}

/// Replaces all but the last few characters of a token by `x`.
pub fn redact_token(token: &str) -> (r: String)
    ensures
        r@ == redacted_chars(token@),
{
    let n = token.unicode_len();
    let start: usize = if n >= 5 {
        n - 5
    } else {
        0
    };
    let body = "xxxxxxxxxxxxxxxxxxxxxxxxxxxxxxxxxxx";
    proof {
        reveal_strlit("xxxxxxxxxxxxxxxxxxxxxxxxxxxxxxxxxxx");
        assert(body@ =~= Seq::new(35, |i: int| 'x'));
    }
    let mut s = body.to_owned();
    let suffix = token.substring_char(start, n);
    s.append(suffix);
    s
}

/// Debug text to print, when debug output is on; nothing otherwise.
pub fn maybe_print(config: &Config, text: String) -> (r: Option<String>)
    ensures
        spec_verbose(*config) ==> r == Some(text),
        !spec_verbose(*config) ==> r is None,
{
    let on = match config.verbose {
        Some(b) => b,
        None => false,
    };
    if on || config.args.verbose {
        Some(text)
    } else {
        None
    }
}

/// The redacted token to show with the configuration when debug
/// output is on: the outer option says whether to print at all, the
/// inner one mirrors whether a token is stored.
pub fn maybe_print_redacted_config(config: &Config) -> (r: Option<Option<String>>)
    ensures
        !spec_verbose(*config) ==> r is None,
        spec_verbose(*config) && config.token is None ==> r == Some(None::<String>),
        spec_verbose(*config) ==> match config.token {
            Some(t) => r matches Some(ot) && ot matches Some(s) && s@ == redacted_chars(t@),
            None => r == Some(None::<String>),
        },
{
    let on = match config.verbose {
        Some(b) => b,
        None => false,
    };
    if on || config.args.verbose {
        match &config.token {
            Some(t) => Some(Some(redact_token(t.as_str()))),
            None => Some(None),
        }
    } else {
        None
    }
}

} // verus!
