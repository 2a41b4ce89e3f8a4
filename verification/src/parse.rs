//! Parsing "ctrl+shift+KeyQ"-style hotkey strings: tokens separated by
//! '+', every modifier named before the one non-modifier key.

use vstd::prelude::*;
use vstd::string::StrSliceExecFns;
use vstd::string::StringExecFns;

use crate::code::key_from_upper;
use crate::code::lookup_key;
use crate::code::parse_key;
use crate::code::upper_eq;
use crate::code::upper_chars;
use crate::code::Code;
use crate::error::Error;
use crate::hotkey::normalize_mods;
use crate::hotkey::HotKey;
use crate::hotkey::MOD_ALT;
use crate::hotkey::MOD_CONTROL;
use crate::hotkey::MOD_META;
use crate::hotkey::MOD_SHIFT;
use crate::hotkey::MOD_SUPER;

verus! {

/// The tokens of a hotkey string: the '+'-separated pieces, in order.
/// A string without '+' is one token; every '+' opens a new (possibly
/// empty) token.
pub open spec fn tokens_of(s: Seq<char>) -> Seq<Seq<char>>
    decreases s.len(),
{
    if s.len() == 0 {
        seq![Seq::<char>::empty()]
    } else if s.last() == '+' {
        tokens_of(s.drop_last()).push(Seq::<char>::empty())
    } else {
        let ts = tokens_of(s.drop_last());
        ts.update(ts.len() - 1, ts.last().push(s.last()))
    }
}

/// A string always has at least one token.
pub proof fn lemma_tokens_of_nonempty(s: Seq<char>)
    ensures
        tokens_of(s).len() >= 1,
    decreases s.len(),
{
    if s.len() > 0 {
        lemma_tokens_of_nonempty(s.drop_last());
    }
}

/// The whitespace stripped from both ends of a token.
pub open spec fn is_ws_char(c: char) -> bool {
    c == ' ' || c == '\t' || c == '\n' || c == '\r'
}

/// A token with leading whitespace stripped.
pub open spec fn trim_front(t: Seq<char>) -> Seq<char>
    decreases t.len(),
{
    if t.len() > 0 && is_ws_char(t[0]) {
        trim_front(t.drop_first())
    } else {
        t
    }
}

/// A token with trailing whitespace stripped.
pub open spec fn trim_back(t: Seq<char>) -> Seq<char>
    decreases t.len(),
{
    if t.len() > 0 && is_ws_char(t.last()) {
        trim_back(t.drop_last())
    } else {
        t
    }
}

/// A token with whitespace stripped from both ends.
pub open spec fn trim_chars(t: Seq<char>) -> Seq<char> {
    trim_back(trim_front(t))
}

/// The modifier bit an uppercased token names, if any.
pub open spec fn mod_token_bits(u: Seq<char>) -> Option<u32> {
    if u == "OPTION"@ || u == "ALT"@ {
        Option::Some(MOD_ALT)
    } else if u == "CONTROL"@ || u == "CTRL"@ {
        Option::Some(MOD_CONTROL)
    } else if u == "COMMAND"@ || u == "CMD"@ || u == "SUPER"@ {
        Option::Some(MOD_SUPER)
    } else if u == "SHIFT"@ {
        Option::Some(MOD_SHIFT)
    } else if u == "COMMANDORCONTROL"@ || u == "COMMANDORCTRL"@ || u == "CMDORCTRL"@ || u
        == "CMDORCONTROL"@ {
        Option::Some(MOD_CONTROL)
    } else {
        Option::None
    }
}

/// What parsing a hotkey string yields: a modifier set and key, or the
/// reason the string is rejected.
pub enum ParseOutcome {
    /// The parsed modifier bits and the non-modifier key.
    Parsed(u32, Code),
    /// Some token is empty once trimmed.
    EmptyToken,
    /// A token follows the non-modifier key, or no non-modifier key is
    /// named at all.
    BadFormat,
    /// The given (trimmed) token names no key of this backend.
    BadKey(Seq<char>),
}

/// One pass over the tokens from position `i` with the modifiers
/// collected so far and the key found so far, as the parser walks a
/// multi-token hotkey string.
pub open spec fn parse_tokens(
    ts: Seq<Seq<char>>,
    i: int,
    mods: u32,
    key: Option<Code>,
) -> ParseOutcome
    decreases ts.len() - i,
{
    if i < 0 || i >= ts.len() {
        match key {
            Option::Some(k) => ParseOutcome::Parsed(mods, k),
            Option::None => ParseOutcome::BadFormat,
        }
    } else {
        let t = trim_chars(ts[i]);
        if t.len() == 0 {
            ParseOutcome::EmptyToken
        } else if key is Some {
            ParseOutcome::BadFormat
        } else {
            let u = upper_chars(t);
            match mod_token_bits(u) {
                Option::Some(bit) => parse_tokens(ts, i + 1, mods | bit, key),
                Option::None => match key_from_upper(u) {
                    Option::Some(k) => parse_tokens(ts, i + 1, mods, Option::Some(k)),
                    Option::None => ParseOutcome::BadKey(t),
                },
            }
        }
    }
}

/// What parsing a whole hotkey string yields.  A single-token string
/// is the bare key name, untrimmed; a multi-token string is walked
/// token by token.
pub open spec fn parse_hotkey_spec(s: Seq<char>) -> ParseOutcome {
    if tokens_of(s).len() == 1 {
        match key_from_upper(upper_chars(s)) {
            Option::Some(k) => ParseOutcome::Parsed(0, k),
            Option::None => ParseOutcome::BadKey(s),
        }
    } else {
        parse_tokens(tokens_of(s), 0, 0, Option::None)
    }
}

/// Whether a character is stripped by trimming.
fn is_ws(c: char) -> (r: bool)
    ensures
        r == is_ws_char(c),
{
    c == ' ' || c == '\t' || c == '\n' || c == '\r'
}

/// OR-ing a modifier bit with the Meta bit clear into a mask with the
/// Meta bit clear leaves the Meta bit clear.
proof fn lemma_or_keeps_meta_clear(m: u32, b: u32)
    requires
        m & MOD_META == 0,
        b & MOD_META == 0,
    ensures
        (m | b) & MOD_META == 0,
{
    assert((m | b) & 16u32 == 0u32) by (bit_vector)
        requires
            m & 16u32 == 0u32,
            b & 16u32 == 0u32,
    ;
}

/// Parses a hotkey string.  On success the hotkey's modifiers and key
/// are exactly what the string names; each rejected string yields the
/// error naming its reason, carrying the whole string (or, for an
/// unknown key name, the offending trimmed token).
pub fn parse_hotkey(hotkey: &str) -> (r: Result<HotKey, Error>)
    ensures
        r is Ok <==> parse_hotkey_spec(hotkey@) is Parsed,
        r matches Result::Ok(hk) ==> parse_hotkey_spec(hotkey@) == ParseOutcome::Parsed(
            hk.mods,
            hk.key,
        ) && hk.wf(),
        r matches Result::Err(e) ==> match parse_hotkey_spec(hotkey@) {
            ParseOutcome::Parsed(m, k) => false,
            ParseOutcome::EmptyToken => e matches Error::EmptyHotKeyToken(t) && t@ == hotkey@,
            ParseOutcome::BadFormat => e matches Error::UnexpectedHotKeyFormat(t) && t@
                == hotkey@,
            ParseOutcome::BadKey(tok) => e matches Error::UnrecognizedHotKeyCode(t) && t@ == tok,
        },
{
    let n = hotkey.unicode_len();
    let mut bounds: Vec<(usize, usize)> = Vec::new();
    bounds.push((0, 0));
    let mut i: usize = 0;
    while i < n
        invariant
            n == hotkey@.len(),
            i <= n,
            bounds@.len() >= 1,
            bounds@.len() == tokens_of(hotkey@.take(i as int)).len(),
            forall|j: int|
                0 <= j < bounds@.len() ==> (#[trigger] bounds@[j]).0 <= bounds@[j].1 <= i,
            forall|j: int|
                0 <= j < bounds@.len() ==> hotkey@.subrange(
                    (#[trigger] bounds@[j]).0 as int,
                    bounds@[j].1 as int,
                ) == tokens_of(hotkey@.take(i as int))[j],
            bounds@[bounds@.len() - 1].1 == i,
        decreases n - i,
    {
        let ghost ts_old = tokens_of(hotkey@.take(i as int));
        let c = hotkey.get_char(i);
        proof {
            assert(hotkey@.take((i + 1) as int).drop_last() =~= hotkey@.take(i as int));
            assert(hotkey@.take((i + 1) as int).last() == hotkey@[i as int]);
        }
        if c == '+' {
            bounds.push((i + 1, i + 1));
            proof {
                assert(tokens_of(hotkey@.take((i + 1) as int)) == ts_old.push(
                    Seq::<char>::empty(),
                ));
                assert(hotkey@.subrange((i + 1) as int, (i + 1) as int) =~= Seq::<char>::empty());
            }
        } else {
            let k = bounds.len() - 1;
            let b = bounds[k];
            bounds[k] = (b.0, i + 1);
            proof {
                lemma_tokens_of_nonempty(hotkey@.take(i as int));
                assert(tokens_of(hotkey@.take((i + 1) as int)) == ts_old.update(
                    ts_old.len() - 1,
                    ts_old.last().push(hotkey@[i as int]),
                ));
                assert(hotkey@.subrange(b.0 as int, (i + 1) as int) =~= hotkey@.subrange(
                    b.0 as int,
                    i as int,
                ).push(hotkey@[i as int]));
                assert(ts_old[ts_old.len() - 1] == ts_old.last());
            }
        }
        i += 1;
    }
    proof {
        assert(hotkey@.take(n as int) =~= hotkey@);
    }
    let ghost ts = tokens_of(hotkey@);
    if bounds.len() == 1 {
        // A single token: the bare key name, not trimmed.
        match parse_key(hotkey) {
            Result::Ok(c) => {
                let hk = HotKey::new(Option::Some(0), c);
                proof {
                    assert(0u32 & 16u32 == 0u32) by (bit_vector);
                }
                Result::Ok(hk)
            },
            Result::Err(e) => Result::Err(e),
        }
    } else {
        let mut mods: u32 = 0;
        let mut key: Option<Code> = Option::None;
        let mut j: usize = 0;
        proof {
            assert(0u32 & 16u32 == 0u32) by (bit_vector);
        }
        while j < bounds.len()
            invariant
                n == hotkey@.len(),
                ts == tokens_of(hotkey@),
                bounds@.len() == ts.len(),
                ts.len() >= 2,
                j <= bounds@.len(),
                forall|jj: int|
                    0 <= jj < bounds@.len() ==> (#[trigger] bounds@[jj]).0 <= bounds@[jj].1 <= n,
                forall|jj: int|
                    0 <= jj < bounds@.len() ==> hotkey@.subrange(
                        (#[trigger] bounds@[jj]).0 as int,
                        bounds@[jj].1 as int,
                    ) == ts[jj],
                mods & MOD_META == 0,
                parse_tokens(ts, j as int, mods, key) == parse_tokens(
                    ts,
                    0,
                    0,
                    Option::None::<Code>,
                ),
            decreases bounds@.len() - j,
        {
            let pr = bounds[j];
            let a = pr.0;
            let b = pr.1;
            let mut a2 = a;
            while a2 < b && is_ws(hotkey.get_char(a2))
                invariant
                    n == hotkey@.len(),
                    a <= a2 <= b <= n,
                    trim_front(hotkey@.subrange(a as int, b as int)) == trim_front(
                        hotkey@.subrange(a2 as int, b as int),
                    ),
                decreases b - a2,
            {
                proof {
                    assert(hotkey@.subrange(a2 as int, b as int).drop_first() =~= hotkey@.subrange(
                        (a2 + 1) as int,
                        b as int,
                    ));
                }
                a2 += 1;
            }
            proof {
                assert(trim_front(hotkey@.subrange(a as int, b as int)) == hotkey@.subrange(
                    a2 as int,
                    b as int,
                ));
            }
            let mut b2 = b;
            while b2 > a2 && is_ws(hotkey.get_char(b2 - 1))
                invariant
                    n == hotkey@.len(),
                    a2 <= b2 <= b <= n,
                    trim_back(hotkey@.subrange(a2 as int, b as int)) == trim_back(
                        hotkey@.subrange(a2 as int, b2 as int),
                    ),
                decreases b2,
            {
                proof {
                    assert(hotkey@.subrange(a2 as int, b2 as int).drop_last() =~= hotkey@.subrange(
                        a2 as int,
                        (b2 - 1) as int,
                    ));
                }
                b2 -= 1;
            }
            proof {
                assert(trim_chars(ts[j as int]) == hotkey@.subrange(a2 as int, b2 as int));
            }
            if a2 == b2 {
                proof {
                    assert(hotkey@.subrange(a2 as int, b2 as int) =~= Seq::<char>::empty());
                }
                return Result::Err(Error::EmptyHotKeyToken(String::from_str(hotkey)));
            }
            if key.is_some() {
                return Result::Err(Error::UnexpectedHotKeyFormat(String::from_str(hotkey)));
            }
            let tok = hotkey.substring_char(a2, b2);
            if upper_eq(tok, "OPTION") || upper_eq(tok, "ALT") {
                proof {
                    assert(4u32 & 16u32 == 0u32) by (bit_vector);
                    lemma_or_keeps_meta_clear(mods, MOD_ALT);
                }
                mods = mods | MOD_ALT;
            } else if upper_eq(tok, "CONTROL") || upper_eq(tok, "CTRL") {
                proof {
                    assert(2u32 & 16u32 == 0u32) by (bit_vector);
                    lemma_or_keeps_meta_clear(mods, MOD_CONTROL);
                }
                mods = mods | MOD_CONTROL;
            } else if upper_eq(tok, "COMMAND") || upper_eq(tok, "CMD") || upper_eq(
                tok,
                "SUPER",
            ) {
                proof {
                    assert(8u32 & 16u32 == 0u32) by (bit_vector);
                    lemma_or_keeps_meta_clear(mods, MOD_SUPER);
                }
                mods = mods | MOD_SUPER;
            } else if upper_eq(tok, "SHIFT") {
                proof {
                    assert(1u32 & 16u32 == 0u32) by (bit_vector);
                    lemma_or_keeps_meta_clear(mods, MOD_SHIFT);
                }
                mods = mods | MOD_SHIFT;
            } else if upper_eq(tok, "COMMANDORCONTROL") || upper_eq(tok, "COMMANDORCTRL")
                || upper_eq(tok, "CMDORCTRL") || upper_eq(tok, "CMDORCONTROL") {
                proof {
                    assert(2u32 & 16u32 == 0u32) by (bit_vector);
                    lemma_or_keeps_meta_clear(mods, MOD_CONTROL);
                }
                mods = mods | MOD_CONTROL;
            } else {
                match lookup_key(tok) {
                    Option::Some(c) => {
                        key = Option::Some(c);
                    },
                    Option::None => {
                        return Result::Err(
                            Error::UnrecognizedHotKeyCode(String::from_str(tok)),
                        );
                    },
                }
            }
            j += 1;
        }
        match key {
            Option::Some(k) => {
                let hk = HotKey::new(Option::Some(mods), k);
                Result::Ok(hk)
            },
            Option::None => Result::Err(Error::UnexpectedHotKeyFormat(String::from_str(hotkey))),
        }
    }
}

impl core::str::FromStr for HotKey {
    type Err = Error;

    /// Parses a hotkey string, so that "shift+alt+KeyQ" and friends
    /// can be given wherever a hotkey is expected.
    fn from_str(s: &str) -> Result<HotKey, Error> {
        parse_hotkey(s)
    }
}

} // verus!
