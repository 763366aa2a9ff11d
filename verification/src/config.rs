//! Operational configuration of the ticket workflow.
//!
//! [`Config`] holds the mutable settings: the channel category tickets are
//! created under, the channel lifecycle log entries are posted to, and the
//! gateway authentication token. Both channel identifiers are optional;
//! their absence is a recoverable condition that operations report, never a
//! crash. Settings change only through the explicit setter operations; the
//! embedding program is expected to guard a shared `Config` with a lock or a
//! transactional store and may mirror it to durable storage.
//!
//! Setter commands take the raw textual argument of the operator and commit
//! only a syntactically valid numeric identifier: a non-empty string of
//! decimal digits whose value fits in 64 bits. Invalid input is rejected
//! with an informational reply and does not mutate the configuration.

use vstd::prelude::*;

verus! {

/// Whether `c` is a decimal digit.
pub open spec fn is_dec_digit(c: char) -> bool {
    48 <= c as int <= 57
}

/// The numeric value of the decimal digit `c`.
pub open spec fn digit_val(c: char) -> nat {
    (c as int - 48) as nat
}

/// Whether every character of `s` is a decimal digit.
pub open spec fn all_digits(s: Seq<char>) -> bool {
    forall|i: int| 0 <= i < s.len() ==> is_dec_digit(#[trigger] s[i])
}

/// The value of `s` read as a decimal numeral.
pub open spec fn dec_value(s: Seq<char>) -> nat
    decreases s.len(),
{
    if s.len() == 0 {
        0
    } else {
        dec_value(s.drop_last()) * 10 + digit_val(s.last())
    }
}

/// Whether `s` is a syntactically valid channel or category identifier:
/// non-empty, decimal digits only, and small enough for a 64-bit identifier.
pub open spec fn is_valid_id(s: Seq<char>) -> bool {
    s.len() > 0 && all_digits(s) && dec_value(s) <= u64::MAX
}

/// A decimal numeral is at least as large as any of its prefixes.
proof fn lemma_dec_value_prefix(s: Seq<char>, j: int)
    requires
        0 <= j <= s.len(),
    ensures
        dec_value(s.take(j)) <= dec_value(s),
    decreases s.len() - j,
{
    if j < s.len() {
        lemma_dec_value_prefix(s.drop_last(), j);
        assert(s.take(j) =~= s.drop_last().take(j));
    } else {
        assert(s.take(j) =~= s);
    }
}

/// Parse a decimal channel or category identifier.
///
/// Returns the value exactly when the input is a valid identifier: the
/// digits' value when the whole string is a non-empty run of decimal digits
/// that fits in a `u64`, and nothing otherwise.
pub fn parse_id(s: &str) -> (r: Option<u64>)
    ensures
        r is Some <==> is_valid_id(s@),
        r matches Some(v) ==> v == dec_value(s@),
{
    let n = s.unicode_len();
    if n == 0 {
        return None;
    }
    let mut acc: u64 = 0;
    let mut i: usize = 0;
    while i < n
        invariant
            n == s@.len(),
            0 <= i <= n,
            all_digits(s@.take(i as int)),
            acc == dec_value(s@.take(i as int)),
        decreases n - i,
    {
        let c = s.get_char(i);
        let u = c as u32;
        if u < 48 || u > 57 {
            assert(!is_dec_digit(s@[i as int]));
            return None;
        }
        let d = (u - 48) as u64;
        proof {
            assert(s@.take(i + 1).drop_last() =~= s@.take(i as int));
            assert(s@.take(i + 1).last() == s@[i as int]);
        }
        if acc > (u64::MAX - d) / 10 {
            proof {
                let ext = s@.take(i + 1);
                assert(dec_value(ext) == acc * 10 + d);
                assert(acc * 10 + d > u64::MAX) by {
                    let m = (u64::MAX - d) as nat;
                    assert(acc >= m / 10 + 1);
                    assert((m / 10 + 1) * 10 == (m / 10) * 10 + 10);
                    assert((m / 10) * 10 + m % 10 == m);
                    assert(acc * 10 >= (m / 10 + 1) * 10) by (nonlinear_arith)
                        requires acc >= m / 10 + 1;
                }
                if all_digits(s@) {
                    lemma_dec_value_prefix(s@, i + 1);
                }
            }
            return None;
        }
        acc = acc * 10 + d;
        i = i + 1;
    }
    proof {
        assert(s@.take(n as int) =~= s@);
    }
    Some(acc)
}

/// The mutable operational settings of the ticket workflow.
pub struct Config {
    /// The gateway authentication token.
    pub token: String,
    /// The category ticket channels are created under, when configured.
    pub category_id: Option<u64>,
    /// The channel lifecycle log entries are posted to, when configured.
    pub log_channel_id: Option<u64>,
}

impl Config {
    /// A fresh configuration: the token as given, no category and no log
    /// channel configured yet.
    pub fn new(token: String) -> (c: Config)
        ensures
            c.token == token,
            c.category_id is None,
            c.log_channel_id is None,
    {
        Config { token, category_id: None, log_channel_id: None }
    }

    pub fn get_category_id(&self) -> (r: Option<u64>)
        ensures
            r == self.category_id,
    {
        self.category_id
    }

    pub fn set_category_id(&mut self, id: u64)
        ensures
            final(self).category_id == Some(id),
            final(self).log_channel_id == old(self).log_channel_id,
            final(self).token == old(self).token,
    {
        self.category_id = Some(id);
    }

    pub fn get_log_channel_id(&self) -> (r: Option<u64>)
        ensures
            r == self.log_channel_id,
    {
        self.log_channel_id
    }

    pub fn set_log_channel_id(&mut self, id: u64)
        ensures
            final(self).log_channel_id == Some(id),
            final(self).category_id == old(self).category_id,
            final(self).token == old(self).token,
    {
        self.log_channel_id = Some(id);
    }
}

/// The outcome of a setter command.
#[derive(Clone, Copy, Debug, PartialEq, Eq, Structural)]
pub enum SetReply {
    /// The setting was committed to the given value.
    Updated(u64),
    /// The argument was not a valid numeric identifier; nothing changed.
    InvalidId,
    /// No argument was supplied; nothing changed.
    MissingId,
}

/// The `setcategory` command: validate the operator's argument and commit
/// the ticket category. Invalid or missing input leaves the configuration
/// untouched.
pub fn set_category(config: &mut Config, input: Option<&str>) -> (r: SetReply)
    ensures
        input is None ==> r == SetReply::MissingId && *final(config) == *old(config),
        input matches Some(s) ==> {
            &&& !is_valid_id(s@) ==> r == SetReply::InvalidId && *final(config) == *old(config)
            &&& is_valid_id(s@) ==> {
                &&& r == SetReply::Updated(dec_value(s@) as u64)
                &&& final(config).category_id == Some(dec_value(s@) as u64)
                &&& final(config).log_channel_id == old(config).log_channel_id
                &&& final(config).token == old(config).token
            }
        },
{
    match input {
        None => SetReply::MissingId,
        Some(s) => match parse_id(s) {
            None => SetReply::InvalidId,
            Some(id) => {
                config.set_category_id(id);
                SetReply::Updated(id)
            },
        },
    }
}

/// The `setlogchannel` command: validate the operator's argument and commit
/// the log channel. Invalid or missing input leaves the configuration
/// untouched.
pub fn set_log_channel(config: &mut Config, input: Option<&str>) -> (r: SetReply)
    ensures
        input is None ==> r == SetReply::MissingId && *final(config) == *old(config),
        input matches Some(s) ==> {
            &&& !is_valid_id(s@) ==> r == SetReply::InvalidId && *final(config) == *old(config)
            &&& is_valid_id(s@) ==> {
                &&& r == SetReply::Updated(dec_value(s@) as u64)
                &&& final(config).log_channel_id == Some(dec_value(s@) as u64)
                &&& final(config).category_id == old(config).category_id
                &&& final(config).token == old(config).token
            }
        },
{
    match input {
        None => SetReply::MissingId,
        Some(s) => match parse_id(s) {
            None => SetReply::InvalidId,
            Some(id) => {
                config.set_log_channel_id(id);
                SetReply::Updated(id)
            },
        },
    }
}

} // verus!
