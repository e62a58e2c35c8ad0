//! Daily quotes of the S&P 500 index, and the two ways of trading on them.

use vstd::prelude::*;
use crate::price::{Price, is_nan_bits};
use crate::stock_action::Stock;
use crate::time::{in_time_range, parse_date_at_midnight, parsed_midnight_millis};

verus! {

/// One row of the daily history as read: the date as text (`month/day/year`)
/// and the open, high, low and close prices as `f32` bit patterns.
#[derive(Debug)]
pub struct SAndPHistoricalDailyRaw {
    pub date: String,
    pub open: u32,
    pub high: u32,
    pub low: u32,
    pub close: u32,
}

/// One day of the history: midnight UTC of the day, and its prices.
#[derive(Clone, Copy, Debug)]
pub struct SAndPHistoricalDaily {
    date: i64,
    open: Price,
    high: Price,
    low: Price,
    close: Price,
}

/// Why a row of the history could not be converted.
#[derive(Clone, Copy, Debug, PartialEq, Eq, Structural)]
pub enum SandPConversionError {
    ParseError,
    IsNaNError,
}

/// Takes a price as it is, refusing NaN.
pub fn to_not_nan(bits: u32) -> (r: Result<Price, SandPConversionError>)
    ensures
        r is Err <==> is_nan_bits(bits),
        r is Err ==> r == Err::<Price, SandPConversionError>(SandPConversionError::IsNaNError),
        r matches Ok(p) ==> p.spec_bits() == bits,
{
    match Price::new(bits) {
        Some(p) => Ok(p),
        None => Err(SandPConversionError::IsNaNError),
    }
}

/// The instant of midnight UTC on the date `text` names in the history's
/// `month/day/year` format, if it names one.
pub open spec fn history_date(text: Seq<char>) -> Option<i64> {
    parsed_midnight_millis(text, "%m/%d/%Y"@)
}

impl SAndPHistoricalDailyRaw {
    /// Whether any of the four prices is a NaN.
    pub open spec fn has_nan(self) -> bool {
        is_nan_bits(self.open) || is_nan_bits(self.high) || is_nan_bits(self.low)
            || is_nan_bits(self.close)
    }

    /// Converts the row: a date that does not parse is a `ParseError`, else
    /// a NaN price is an `IsNaNError`.
    pub fn try_into(self) -> (r: Result<SAndPHistoricalDaily, SandPConversionError>)
        ensures
            history_date(self.date@) is None ==> r == Err::<
                SAndPHistoricalDaily,
                SandPConversionError,
            >(SandPConversionError::ParseError),
            history_date(self.date@) is Some && self.has_nan() ==> r == Err::<
                SAndPHistoricalDaily,
                SandPConversionError,
            >(SandPConversionError::IsNaNError),
            history_date(self.date@) is Some && !self.has_nan() ==> r is Ok,
            r matches Ok(d) ==> {
                &&& Some(d.spec_date()) == history_date(self.date@)
                &&& d.spec_open().spec_bits() == self.open
                &&& d.spec_high().spec_bits() == self.high
                &&& d.spec_low().spec_bits() == self.low
                &&& d.spec_close().spec_bits() == self.close
            },
    {
        let date = parse_date_at_midnight(self.date.as_str(), "%m/%d/%Y");
        from_parsed(date, self.open, self.high, self.low, self.close)
    }
}

/// Builds a day from the instant its date parsed to (`None` where it did
/// not) and its open, high, low and close prices as `f32` bit patterns: an
/// unparsed date is a `ParseError`, else a NaN price is an `IsNaNError`.
pub fn from_parsed(date: Option<i64>, open: u32, high: u32, low: u32, close: u32) -> (r: Result<
    SAndPHistoricalDaily,
    SandPConversionError,
>)
    requires
        date matches Some(t) ==> in_time_range(t as int),
    ensures
        date is None ==> r == Err::<SAndPHistoricalDaily, SandPConversionError>(
            SandPConversionError::ParseError,
        ),
        date is Some && (is_nan_bits(open) || is_nan_bits(high) || is_nan_bits(low) || is_nan_bits(
            close,
        )) ==> r == Err::<SAndPHistoricalDaily, SandPConversionError>(
            SandPConversionError::IsNaNError,
        ),
        date is Some && !(is_nan_bits(open) || is_nan_bits(high) || is_nan_bits(low) || is_nan_bits(
            close,
        )) ==> r is Ok,
        r matches Ok(d) ==> {
            &&& Some(d.spec_date()) == date
            &&& d.spec_open().spec_bits() == open
            &&& d.spec_high().spec_bits() == high
            &&& d.spec_low().spec_bits() == low
            &&& d.spec_close().spec_bits() == close
        },
{
    let date = match date {
        Some(t) => t,
        None => {
            return Err(SandPConversionError::ParseError);
        },
    };
    let close = match to_not_nan(close) {
        Ok(p) => p,
        Err(e) => {
            return Err(e);
        },
    };
    let high = match to_not_nan(high) {
        Ok(p) => p,
        Err(e) => {
            return Err(e);
        },
    };
    let low = match to_not_nan(low) {
        Ok(p) => p,
        Err(e) => {
            return Err(e);
        },
    };
    let open = match to_not_nan(open) {
        Ok(p) => p,
        Err(e) => {
            return Err(e);
        },
    };
    Ok(SAndPHistoricalDaily { close, date, high, low, open })
}

impl SAndPHistoricalDaily {
    #[verifier::type_invariant]
    spec fn representable(self) -> bool {
        in_time_range(self.date as int)
    }

    pub closed spec fn spec_date(self) -> i64 {
        self.date
    }

    pub closed spec fn spec_open(self) -> Price {
        self.open
    }

    pub closed spec fn spec_high(self) -> Price {
        self.high
    }

    pub closed spec fn spec_low(self) -> Price {
        self.low
    }

    pub closed spec fn spec_close(self) -> Price {
        self.close
    }

    /// A day from its instant and prices.
    pub fn new(date: i64, open: Price, high: Price, low: Price, close: Price) -> (r: Self)
        requires
            in_time_range(date as int),
        ensures
            r.spec_date() == date,
            r.spec_open() == open,
            r.spec_high() == high,
            r.spec_low() == low,
            r.spec_close() == close,
    {
        SAndPHistoricalDaily { date, open, high, low, close }
    }

    pub fn date(&self) -> (t: i64)
        ensures
            t == self.spec_date(),
            in_time_range(t as int),
    {
        proof {
            use_type_invariant(self);
        }
        self.date
    }

    pub fn open(&self) -> (p: Price)
        ensures
            p == self.spec_open(),
    {
        self.open
    }

    pub fn high(&self) -> (p: Price)
        ensures
            p == self.spec_high(),
    {
        self.high
    }

    pub fn low(&self) -> (p: Price)
        ensures
            p == self.spec_low(),
    {
        self.low
    }

    pub fn close(&self) -> (p: Price)
        ensures
            p == self.spec_close(),
    {
        self.close
    }
}

/// A day traded at its worst: bought at the high, sold at the low.
#[derive(Clone, Copy, Debug)]
pub struct WorstCaseSAndP(pub SAndPHistoricalDaily);

impl Stock for WorstCaseSAndP {
    open spec fn spec_time(&self) -> i64 {
        self.0.spec_date()
    }

    open spec fn spec_buy_price(&self) -> Price {
        self.0.spec_high()
    }

    open spec fn spec_sell_price(&self) -> Price {
        self.0.spec_low()
    }

    fn get_sell_price(&self) -> (p: Price) {
        self.0.low()
    }

    fn get_time(&self) -> (t: i64) {
        self.0.date()
    }

    fn get_buy_price(&self) -> (p: Price) {
        self.0.high()
    }
}

/// A day traded at its best: bought at the low, sold at the high.
#[derive(Clone, Copy, Debug)]
pub struct BestCaseSAndP(pub SAndPHistoricalDaily);

impl Stock for BestCaseSAndP {
    open spec fn spec_time(&self) -> i64 {
        self.0.spec_date()
    }

    open spec fn spec_buy_price(&self) -> Price {
        self.0.spec_low()
    }

    open spec fn spec_sell_price(&self) -> Price {
        self.0.spec_high()
    }

    fn get_sell_price(&self) -> (p: Price) {
        self.0.high()
    }

    fn get_buy_price(&self) -> (p: Price) {
        self.0.low()
    }

    fn get_time(&self) -> (t: i64) {
        self.0.date()
    }
}

/// Whether a character is kept when spaces are stripped.
pub open spec fn not_space(c: char) -> bool {
    c != ' '
}

/// A text with its spaces removed.
pub open spec fn without_spaces(s: Seq<char>) -> Seq<char> {
    s.filter(|c: char| not_space(c))
}

/// What stripping spaces does, character by character: a space vanishes,
/// any other character (a newline, a tab, a comma, a digit) stays as it is;
/// stripping a text is stripping its two halves and joining the results;
/// and no space is left, while every other character of the text is.
pub proof fn lemma_strip_spaces_law(a: Seq<char>, b: Seq<char>, c: char)
    ensures
        without_spaces(seq![' ']) == Seq::<char>::empty(),
        c != ' ' ==> without_spaces(seq![c]) == seq![c],
        without_spaces(seq!['\n']) == seq!['\n'],
        without_spaces(a + b) == without_spaces(a) + without_spaces(b),
        forall|i: int| 0 <= i < without_spaces(a).len() ==> without_spaces(a)[i] != ' ',
        forall|i: int| 0 <= i < a.len() && a[i] != ' ' ==> without_spaces(a).contains(a[i]),
{
    broadcast use vstd::seq_lib::group_filter_ensures;

    reveal_with_fuel(Seq::filter, 2);
    assert(seq![' '].drop_last() =~= Seq::<char>::empty());
    assert(seq![c].drop_last() =~= Seq::<char>::empty());
    assert(seq!['\n'].drop_last() =~= Seq::<char>::empty());
    assert(Seq::<char>::empty().push(c) =~= seq![c]);
    assert(Seq::<char>::empty().push('\n') =~= seq!['\n']);
    Seq::filter_distributes_over_add(a, b, |c: char| not_space(c));
    assert forall|i: int| 0 <= i < without_spaces(a).len() implies without_spaces(a)[i] != ' ' by {
        a.lemma_filter_pred(|c: char| not_space(c), i);
    }
    assert forall|i: int| 0 <= i < a.len() && a[i] != ' ' implies without_spaces(a).contains(
        a[i],
    ) by {
        a.lemma_filter_contains(|c: char| not_space(c), i);
    }
}

/// Appends a character.  Calls `String::push`; trusted: the text gains `c`
/// at its end.
#[verifier::external_body]
fn push_char(text: &mut String, c: char)
    ensures
        final(text)@ == old(text)@.push(c),
{
    text.push(c);
}

/// The text with every space removed, as the history is cleaned before it is
/// read.
pub fn strip_spaces(text: &str) -> (r: String)
    ensures
        r@ == without_spaces(text@),
{
    broadcast use vstd::string::axiom_spec_iter;
    broadcast use vstd::seq_lib::group_filter_ensures;

    let mut out = String::new();
    let ghost all = text@;
    for c in it: text.chars()
        invariant
            all == text@,
            it.seq() == all,
            out@ == all.take(it.index() as int).filter(|c: char| not_space(c)),
    {
        proof {
            assert(all.take(it.index() + 1) =~= all.take(it.index() as int).push(c));
            all.take(it.index() as int).lemma_filter_push(c, |c: char| not_space(c));
        }
        if c != ' ' {
            push_char(&mut out, c);
        }
    }
    proof {
        assert(all.take(all.len() as int) =~= all);
    }
    out
}

} // verus!
