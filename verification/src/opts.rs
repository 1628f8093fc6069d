//! The selectors and amounts that the command line hands to the node, and
//! how they are read from text.
use vstd::prelude::*;
use vstd::string::StrSliceExecFns;
use std::str::FromStr;

verus! {

/// Whether a text is a given word.
fn is_word(input: &str, word: &str) -> (same: bool)
    ensures
        same == (input@ == word@),
{
    let left = input.to_owned();
    let right = word.to_owned();
    left == right
}

/// Which deals to list.
#[derive(Clone, Copy, PartialEq, Eq, Structural, PartialOrd, Ord, Hash, Debug)]
pub enum DealSelector {
    Open,
    InProgress,
    Ended,
    All,
}

/// The text held no deal selector.
#[derive(Clone, Copy, PartialEq, Eq, Structural, PartialOrd, Ord, Hash, Debug)]
pub enum DealSelectorParseError {
    /// The provided value can't be parsed as a deal selector.
    Invalid,
}

impl DealSelector {
    /// The selector that a text names: `open` or `Open`; `in_progress` or
    /// `inprogress`; `ended` or `Ended`; `all` or `All`.
    pub open spec fn spec_parse(input: Seq<char>) -> Result<DealSelector, DealSelectorParseError> {
        if input == "open"@ || input == "Open"@ {
            Ok(DealSelector::Open)
        } else if input == "in_progress"@ || input == "inprogress"@ {
            Ok(DealSelector::InProgress)
        } else if input == "ended"@ || input == "Ended"@ {
            Ok(DealSelector::Ended)
        } else if input == "all"@ || input == "All"@ {
            Ok(DealSelector::All)
        } else {
            Err(DealSelectorParseError::Invalid)
        }
    }

    /// Reads a selector from its name.
    pub fn parse(input: &str) -> (parsed: Result<DealSelector, DealSelectorParseError>)
        ensures
            parsed == Self::spec_parse(input@),
    {
        if is_word(input, "open") || is_word(input, "Open") {
            Ok(DealSelector::Open)
        } else if is_word(input, "in_progress") || is_word(input, "inprogress") {
            Ok(DealSelector::InProgress)
        } else if is_word(input, "ended") || is_word(input, "Ended") {
            Ok(DealSelector::Ended)
        } else if is_word(input, "all") || is_word(input, "All") {
            Ok(DealSelector::All)
        } else {
            Err(DealSelectorParseError::Invalid)
        }
    }

    /// The selector as it is shown.
    pub fn label(&self) -> (text: &'static str)
        ensures
            text@ == match *self {
                DealSelector::Open => "Open"@,
                DealSelector::InProgress => "In Progress"@,
                DealSelector::Ended => "Ended"@,
                DealSelector::All => "All"@,
            },
    {
        match self {
            DealSelector::Open => "Open",
            DealSelector::InProgress => "In Progress",
            DealSelector::Ended => "Ended",
            DealSelector::All => "All",
        }
    }
}

impl FromStr for DealSelector {
    type Err = DealSelectorParseError;

    /// Reads a selector from its name, as `parse` does.
    fn from_str(input: &str) -> (parsed: Result<DealSelector, DealSelectorParseError>)
        ensures
            parsed == DealSelector::spec_parse(input@),
    {
        DealSelector::parse(input)
    }
}

/// Which checkpoints to list.
#[derive(Clone, Copy, PartialEq, Eq, Structural, PartialOrd, Ord, Hash, Debug)]
pub enum CheckpointSelector {
    All,
    AvailableForRestore,
}

/// The text held no checkpoint selector.
#[derive(Clone, Copy, PartialEq, Eq, Structural, PartialOrd, Ord, Hash, Debug)]
pub enum CheckpointSelectorParseError {
    /// The provided value can't be parsed as a checkpoint selector.
    Invalid,
}

impl CheckpointSelector {
    /// The selector that a text names: `all` or `All`; `available`,
    /// `Available` or `available-for-restore`.
    pub open spec fn spec_parse(input: Seq<char>) -> Result<
        CheckpointSelector,
        CheckpointSelectorParseError,
    > {
        if input == "all"@ || input == "All"@ {
            Ok(CheckpointSelector::All)
        } else if input == "available"@ || input == "Available"@ || input
            == "available-for-restore"@ {
            Ok(CheckpointSelector::AvailableForRestore)
        } else {
            Err(CheckpointSelectorParseError::Invalid)
        }
    }

    /// Reads a selector from its name.
    pub fn parse(input: &str) -> (parsed: Result<CheckpointSelector, CheckpointSelectorParseError>)
        ensures
            parsed == Self::spec_parse(input@),
    {
        if is_word(input, "all") || is_word(input, "All") {
            Ok(CheckpointSelector::All)
        } else if is_word(input, "available") || is_word(input, "Available") || is_word(
            input,
            "available-for-restore",
        ) {
            Ok(CheckpointSelector::AvailableForRestore)
        } else {
            Err(CheckpointSelectorParseError::Invalid)
        }
    }

    /// The selector as it is shown.
    pub fn label(&self) -> (text: &'static str)
        ensures
            text@ == match *self {
                CheckpointSelector::All => "All"@,
                CheckpointSelector::AvailableForRestore => "AvailableForRestore"@,
            },
    {
        match self {
            CheckpointSelector::All => "All",
            CheckpointSelector::AvailableForRestore => "AvailableForRestore",
        }
    }
}

impl FromStr for CheckpointSelector {
    type Err = CheckpointSelectorParseError;

    /// Reads a selector from its name, as `parse` does.
    fn from_str(input: &str) -> (parsed: Result<CheckpointSelector, CheckpointSelectorParseError>)
        ensures
            parsed == CheckpointSelector::spec_parse(input@),
    {
        CheckpointSelector::parse(input)
    }
}

/// Why a text held no amount of an asset.
#[derive(Clone, Copy, PartialEq, Eq, Structural, PartialOrd, Ord, Hash, Debug)]
pub enum AmountOfAssetParseError {
    /// The text is no pair of an asset and an amount: it has the form
    /// neither of `<asset>:<amount>` nor of `<amount> <asset>`.
    NeedsValuePair,
    /// The amount is no unsigned integer of 64 bits.
    InvalidAmount,
}

/// An amount of an asset in atomic units.
#[derive(Clone, PartialEq, Eq, PartialOrd, Ord, Hash, Debug)]
pub struct AmountOfAsset {
    /// Asset ticker
    asset: String,
    /// Amount of the asset in atomic units
    amount: u64,
}

/// The value of a decimal digit.
pub open spec fn digit_value(c: char) -> nat
    recommends
        '0' <= c <= '9',
{
    (c as u32 - '0' as u32) as nat
}

/// The number that a run of decimal digits writes, or `None` where some
/// character is no digit. The empty run writes 0.
pub open spec fn digits_value(digits: Seq<char>) -> Option<nat>
    decreases digits.len(),
{
    if digits.len() == 0 {
        Some(0)
    } else {
        match digits_value(digits.drop_last()) {
            Some(front) => if '0' <= digits.last() <= '9' {
                Some(front * 10 + digit_value(digits.last()))
            } else {
                None
            },
            None => None,
        }
    }
}

/// A text without its leading `+`, if it has one.
pub open spec fn unsigned_digits(text: Seq<char>) -> Seq<char> {
    if text.len() > 0 && text[0] == '+' {
        text.subrange(1, text.len() as int)
    } else {
        text
    }
}

/// The unsigned 64-bit integer that a text writes in decimal: an optional
/// `+`, then one digit or more, the number no larger than `u64::MAX`.
pub open spec fn spec_parse_u64(text: Seq<char>) -> Option<u64> {
    let digits = unsigned_digits(text);
    if digits.len() == 0 {
        None
    } else {
        match digits_value(digits) {
            Some(value) => if value <= u64::MAX {
                Some(value as u64)
            } else {
                None
            },
            None => None,
        }
    }
}

/// Reads an unsigned 64-bit integer from its decimal form.
pub fn parse_u64(text: &str) -> (parsed: Option<u64>)
    ensures
        parsed == spec_parse_u64(text@),
{
    let len = text.unicode_len();
    let start: usize = if len > 0 && text.get_char(0) == '+' {
        1
    } else {
        0
    };
    if start == len {
        return None;
    }
    let ghost digits = unsigned_digits(text@);
    let mut value: u64 = 0;
    let mut overflow = false;
    let mut i: usize = start;
    while i < len
        invariant
            start <= i <= len,
            len == text@.len(),
            digits == unsigned_digits(text@),
            digits.len() == len - start,
            forall|k: int| 0 <= k < digits.len() ==> digits[k] == text@[k + start],
            !overflow ==> digits_value(digits.take(i - start)) == Some(value as nat),
            overflow ==> match digits_value(digits.take(i - start)) {
                Some(v) => v > u64::MAX,
                None => false,
            },
        decreases len - i,
    {
        let c = text.get_char(i);
        proof {
            assert(digits.take(i - start + 1).drop_last() == digits.take(i - start));
            assert(digits.take(i - start + 1).last() == c);
        }
        if c < '0' || c > '9' {
            proof {
                lemma_digits_prefix(digits, i - start + 1);
            }
            return None;
        }
        let digit: u64 = (c as u32 - '0' as u32) as u64;
        if !overflow {
            if value > (u64::MAX - digit) / 10 {
                overflow = true;
            } else {
                value = value * 10 + digit;
            }
        }
        i += 1;
    }
    proof {
        assert(digits.take(len - start) == digits);
    }
    if overflow {
        None
    } else {
        Some(value)
    }
}

/// A run holds only digits if it writes a number, and then so does each of
/// its prefixes.
proof fn lemma_digits_prefix(digits: Seq<char>, n: int)
    requires
        0 <= n <= digits.len(),
    ensures
        digits_value(digits.take(n)) is None ==> digits_value(digits) is None,
    decreases digits.len(),
{
    if n < digits.len() {
        lemma_digits_prefix(digits.drop_last(), n);
        assert(digits.drop_last().take(n) == digits.take(n));
    } else {
        assert(digits.take(n) == digits);
    }
}

/// Where a character first stands in a text that holds it.
pub open spec fn first_index(text: Seq<char>, c: char) -> int {
    choose|i: int|
        0 <= i < text.len() && text[i] == c && forall|j: int| 0 <= j < i ==> text[j] != c
}

/// The two parts of a text around its separator, where it holds the
/// separator exactly once.
pub open spec fn pair_around(text: Seq<char>, sep: char) -> Option<(Seq<char>, Seq<char>)> {
    if !text.contains(sep) {
        None
    } else {
        let at = first_index(text, sep);
        let rest = text.skip(at + 1);
        if rest.contains(sep) {
            None
        } else {
            Some((text.take(at), rest))
        }
    }
}

/// The asset and the amount text of a pair: `<asset>:<amount>` where the
/// text holds a colon, else `<amount> <asset>` where it holds a space.
pub open spec fn asset_and_amount(text: Seq<char>) -> Option<(Seq<char>, Seq<char>)> {
    if text.contains(':') {
        pair_around(text, ':')
    } else {
        match pair_around(text, ' ') {
            Some((amount, asset)) => Some((asset, amount)),
            None => None,
        }
    }
}

/// The first place at or after `from` where a character stands in a text.
fn find_char(text: &str, c: char, from: usize) -> (at: Option<usize>)
    ensures
        match at {
            Some(i) => from <= i < text@.len() && text@[i as int] == c && forall|j: int|
                from <= j < i ==> text@[j] != c,
            None => forall|j: int| from <= j < text@.len() ==> text@[j] != c,
        },
{
    let len = text.unicode_len();
    let mut i: usize = from;
    while i < len
        invariant
            len == text@.len(),
            from <= i,
            forall|j: int| from <= j < i && j < len ==> text@[j] != c,
        decreases len - i,
    {
        if text.get_char(i) == c {
            return Some(i);
        }
        i += 1;
    }
    None
}

/// Splits a text around its separator, where it holds the separator
/// exactly once.
fn split_pair<'a>(text: &'a str, sep: char) -> (parts: Option<(&'a str, &'a str)>)
    ensures
        match parts {
            Some((head, tail)) => pair_around(text@, sep) == Some((head@, tail@)),
            None => pair_around(text@, sep) is None,
        },
{
    let len = text.unicode_len();
    let at = match find_char(text, sep, 0) {
        Some(at) => at,
        None => {
            return None;
        },
    };
    proof {
        assert(text@.contains(sep));
        let first = first_index(text@, sep);
        assert(first == at) by {
            if first < at {
                assert(text@[first] != sep);
            }
            if at < first {
                assert(text@[at as int] == sep);
            }
        }
    }
    let ghost rest = text@.skip(at + 1);
    match find_char(text, sep, at + 1) {
        Some(again) => {
            proof {
                assert(rest[again - at - 1] == sep);
            }
            None
        },
        None => {
            proof {
                assert forall|k: int| 0 <= k < rest.len() implies rest[k] != sep by {
                    assert(rest[k] == text@[k + at + 1]);
                }
                assert(text@.take(at as int) == text@.subrange(0, at as int));
                assert(rest == text@.subrange(at + 1, len as int));
            }
            Some((text.substring_char(0, at), text.substring_char(at + 1, len)))
        },
    }
}

impl View for AmountOfAsset {
    type V = (Seq<char>, u64);

    /// The asset's ticker and the amount.
    closed spec fn view(&self) -> (Seq<char>, u64) {
        (self.asset@, self.amount)
    }
}

impl AmountOfAsset {
    /// What a text says: the pair it holds with the amount read as a
    /// number, `NeedsValuePair` where it holds no pair, `InvalidAmount`
    /// where it holds one whose amount is no number.
    pub open spec fn spec_parse(text: Seq<char>) -> Result<
        (Seq<char>, u64),
        AmountOfAssetParseError,
    > {
        match asset_and_amount(text) {
            None => Err(AmountOfAssetParseError::NeedsValuePair),
            Some((asset, amount)) => match spec_parse_u64(amount) {
                Some(value) => Ok((asset, value)),
                None => Err(AmountOfAssetParseError::InvalidAmount),
            },
        }
    }

    /// Reads an amount of an asset from `<asset>:<amount>` or
    /// `<amount> <asset>`.
    pub fn parse(s: &str) -> (parsed: Result<AmountOfAsset, AmountOfAssetParseError>)
        ensures
            match parsed {
                Ok(value) => Self::spec_parse(s@) == Ok::<_, AmountOfAssetParseError>(value@),
                Err(e) => Self::spec_parse(s@) == Err::<(Seq<char>, u64), _>(e),
            },
    {
        let (asset, amount) = if find_char(s, ':', 0).is_some() {
            match split_pair(s, ':') {
                Some((asset, amount)) => (asset, amount),
                None => {
                    return Err(AmountOfAssetParseError::NeedsValuePair);
                },
            }
        } else {
            match split_pair(s, ' ') {
                Some((amount, asset)) => (asset, amount),
                None => {
                    return Err(AmountOfAssetParseError::NeedsValuePair);
                },
            }
        };
        match parse_u64(amount) {
            Some(value) => Ok(AmountOfAsset { asset: asset.to_owned(), amount: value }),
            None => Err(AmountOfAssetParseError::InvalidAmount),
        }
    }

    /// The asset's ticker.
    pub fn asset(&self) -> (ticker: &str)
        ensures
            ticker@ == self@.0,
    {
        self.asset.as_str()
    }

    /// The amount in atomic units.
    pub fn amount(&self) -> (amount: u64)
        ensures
            amount == self@.1,
    {
        self.amount
    }
}

impl FromStr for AmountOfAsset {
    type Err = AmountOfAssetParseError;

    /// Reads an amount of an asset from `<asset>:<amount>` or
    /// `<amount> <asset>`, as `parse` does.
    fn from_str(s: &str) -> (parsed: Result<AmountOfAsset, AmountOfAssetParseError>)
        ensures
            match parsed {
                Ok(value) => AmountOfAsset::spec_parse(s@) == Ok::<_, AmountOfAssetParseError>(
                    value@,
                ),
                Err(e) => AmountOfAsset::spec_parse(s@) == Err::<(Seq<char>, u64), _>(e),
            },
    {
        AmountOfAsset::parse(s)
    }
}

} // verus!
