//! The conventions of a locale, kind by kind, and the reading of what
//! `locale -k` prints of them.
use vstd::prelude::*;
use crate::helpers::cmd_output_helper::{get_val_from_keyval, val_from_keyval};
use crate::helpers::pattern::{first_replaced, replace_first};
use crate::helpers::text::{
    contains, join, lines, replace, split, starts_with, str_concat, str_contains, str_join,
    str_lines, str_replace, str_split, str_starts_with, texts,
};

verus! {

/// The conventions for numbers.
#[derive(Debug, PartialEq, Eq)]
pub struct LCNumeric {
    pub decimal_point: String,
    pub thousands_sep: String,
    pub grouping: u8,
}

/// The conventions for dates and times.
#[derive(Debug, PartialEq, Eq)]
pub struct LCTime {
    pub abday: String,
    pub day: String,
    pub abmon: String,
    pub mon: String,
    pub am_pm: String,
    pub d_t_fmt: String,
    pub d_fmt: String,
    pub t_fmt: String,
    pub t_fmt_ampm: String,
    pub alt_digits: String,
    pub era: String,
    pub era_d_fmt: String,
    pub era_t_fmt: String,
    pub era_d_t_fmt: String,
    pub first_weekday: u8,
}

/// The conventions for money.
#[derive(Debug, PartialEq, Eq)]
pub struct LCMonetary {
    pub int_curr_symbol: String,
    pub currency_symbol: String,
    pub mon_decimal_point: String,
    pub mon_thousands_sep: String,
    pub mon_grouping: u8,
    pub positive_sign: String,
    pub negative_sign: String,
    pub int_frac_digits: u8,
    pub frac_digits: u8,
}

/// The system of measures.
#[derive(Debug, PartialEq, Eq)]
pub struct LCMeasure {
    pub measurement: usize,
}

impl LCNumeric {
    /// Every text is empty and every number is zero.
    pub open spec fn is_default(&self) -> bool {
        &&& self.decimal_point@.len() == 0
        &&& self.thousands_sep@.len() == 0
        &&& self.grouping == 0
    }
}

impl Default for LCNumeric {
    /// Every text empty, every number zero.
    fn default() -> (r: LCNumeric)
        ensures
            r.is_default(),
    {
        LCNumeric {
            decimal_point: String::new(),
            thousands_sep: String::new(),
            grouping: 0,
        }
    }
}

impl LCTime {
    /// Every text is empty and every number is zero.
    pub open spec fn is_default(&self) -> bool {
        &&& self.abday@.len() == 0
        &&& self.day@.len() == 0
        &&& self.abmon@.len() == 0
        &&& self.mon@.len() == 0
        &&& self.am_pm@.len() == 0
        &&& self.d_t_fmt@.len() == 0
        &&& self.d_fmt@.len() == 0
        &&& self.t_fmt@.len() == 0
        &&& self.t_fmt_ampm@.len() == 0
        &&& self.alt_digits@.len() == 0
        &&& self.era@.len() == 0
        &&& self.era_d_fmt@.len() == 0
        &&& self.era_t_fmt@.len() == 0
        &&& self.era_d_t_fmt@.len() == 0
        &&& self.first_weekday == 0
    }
}

impl Default for LCTime {
    /// Every text empty, every number zero.
    fn default() -> (r: LCTime)
        ensures
            r.is_default(),
    {
        LCTime {
            abday: String::new(),
            day: String::new(),
            abmon: String::new(),
            mon: String::new(),
            am_pm: String::new(),
            d_t_fmt: String::new(),
            d_fmt: String::new(),
            t_fmt: String::new(),
            t_fmt_ampm: String::new(),
            alt_digits: String::new(),
            era: String::new(),
            era_d_fmt: String::new(),
            era_t_fmt: String::new(),
            era_d_t_fmt: String::new(),
            first_weekday: 0,
        }
    }
}

impl LCMonetary {
    /// Every text is empty and every number is zero.
    pub open spec fn is_default(&self) -> bool {
        &&& self.int_curr_symbol@.len() == 0
        &&& self.currency_symbol@.len() == 0
        &&& self.mon_decimal_point@.len() == 0
        &&& self.mon_thousands_sep@.len() == 0
        &&& self.mon_grouping == 0
        &&& self.positive_sign@.len() == 0
        &&& self.negative_sign@.len() == 0
        &&& self.int_frac_digits == 0
        &&& self.frac_digits == 0
    }
}

impl Default for LCMonetary {
    /// Every text empty, every number zero.
    fn default() -> (r: LCMonetary)
        ensures
            r.is_default(),
    {
        LCMonetary {
            int_curr_symbol: String::new(),
            currency_symbol: String::new(),
            mon_decimal_point: String::new(),
            mon_thousands_sep: String::new(),
            mon_grouping: 0,
            positive_sign: String::new(),
            negative_sign: String::new(),
            int_frac_digits: 0,
            frac_digits: 0,
        }
    }
}

impl LCMeasure {
    /// Every text is empty and every number is zero.
    pub open spec fn is_default(&self) -> bool {
        &&& self.measurement == 0
    }
}

impl Default for LCMeasure {
    /// Every text empty, every number zero.
    fn default() -> (r: LCMeasure)
        ensures
            r.is_default(),
    {
        LCMeasure {
            measurement: 0,
        }
    }
}

impl LCTime {
    /// The short names of the days.
    pub fn list_abbr_days(&self) -> (r: Vec<String>)
        ensures
            texts(r@) == split(self.abday@, seq![';']),
    {
        proof {
            reveal_strlit(";");
            assert(";"@ =~= seq![';']);
        }
        str_split(self.abday.as_str(), ";")
    }

    /// The names of the days.
    pub fn list_days(&self) -> (r: Vec<String>)
        ensures
            texts(r@) == split(self.day@, seq![';']),
    {
        proof {
            reveal_strlit(";");
            assert(";"@ =~= seq![';']);
        }
        str_split(self.day.as_str(), ";")
    }

    /// The short names of the months.
    pub fn list_abbr_months(&self) -> (r: Vec<String>)
        ensures
            texts(r@) == split(self.abmon@, seq![';']),
    {
        proof {
            reveal_strlit(";");
            assert(";"@ =~= seq![';']);
        }
        str_split(self.abmon.as_str(), ";")
    }

    /// The names of the months.
    pub fn list_months(&self) -> (r: Vec<String>)
        ensures
            texts(r@) == split(self.mon@, seq![';']),
    {
        proof {
            reveal_strlit(";");
            assert(";"@ =~= seq![';']);
        }
        str_split(self.mon.as_str(), ";")
    }

    /// The words for the two halves of the day.
    pub fn str_am_pm(&self) -> (r: Vec<String>)
        ensures
            texts(r@) == split(self.am_pm@, seq![';']),
    {
        proof {
            reveal_strlit(";");
            assert(";"@ =~= seq![';']);
        }
        str_split(self.am_pm.as_str(), ";")
    }

    /// The digits of the locale's own script, where it has any.
    pub fn list_alt_digits(&self) -> (r: Option<Vec<String>>)
        ensures
            match r {
                Some(digits) => self.alt_digits@.len() > 0 && texts(digits@) == split(
                    self.alt_digits@,
                    seq![';'],
                ),
                None => self.alt_digits@.len() == 0,
            },
    {
        proof {
            reveal_strlit(";");
            assert(";"@ =~= seq![';']);
        }
        if self.alt_digits.as_str().unicode_len() > 0 {
            Some(str_split(self.alt_digits.as_str(), ";"))
        } else {
            None
        }
    }
}

/// The pattern of a list of two numbers with a semicolon between them.
pub open spec fn number_list_pattern() -> Seq<char> {
    "[0-9]+;[0-9]+"@
}

/// One line of details, made fit to be read as a table of keys and
/// values: the first list of two numbers in it becomes a zero.
pub open spec fn number_line(line: Seq<char>) -> Seq<char> {
    first_replaced(number_list_pattern(), line, "0"@)
}

/// The details of the conventions for numbers or money, made fit to be
/// read as a table of keys and values: an underscore for every hyphen, and
/// in every line a zero for the first list of two numbers.
pub open spec fn number_details(stdout: Seq<char>) -> Seq<char> {
    let all = lines(replace(stdout, seq!['-'], seq!['_']));
    join(Seq::new(all.len(), |i: int| number_line(all[i])), seq!['\n'])
}

/// One line of the details of the conventions for time, made fit to be
/// read as a table of keys and values: a line without a value gets an
/// empty text for one.
pub open spec fn time_line(line: Seq<char>) -> Seq<char> {
    if val_from_keyval(line, seq!['=']).len() == 0 && !contains(line, seq!['"']) {
        line + seq!['"', '"']
    } else {
        line
    }
}

/// The lines of the entries of eras, which are left out.
pub open spec fn era_entries() -> spec_fn(Seq<char>) -> bool {
    |line: Seq<char>| starts_with(line, "time_era_entries="@)
}

/// The lines that are kept of the details of the conventions for time,
/// each made fit.
pub open spec fn time_lines(all: Seq<Seq<char>>) -> Seq<Seq<char>>
    decreases all.len(),
{
    if all.len() == 0 {
        all
    } else if era_entries()(all.last()) {
        time_lines(all.drop_last())
    } else {
        time_lines(all.drop_last()).push(time_line(all.last()))
    }
}

/// The details of the conventions for time, made fit to be read as a
/// table of keys and values.
pub open spec fn time_details(stdout: Seq<char>) -> Seq<char> {
    join(time_lines(lines(replace(stdout, seq!['-'], seq!['_']))), seq!['\n'])
}

/// The details of the conventions for numbers or money, made fit to be
/// read as a table of keys and values.
pub fn format_number_details(stdout: &str) -> (r: String)
    ensures
        r@ == number_details(stdout@),
{
    proof {
        reveal_strlit("-");
        reveal_strlit("_");
        reveal_strlit("\n");
        assert("-"@ =~= seq!['-']);
        assert("_"@ =~= seq!['_']);
        assert("\n"@ =~= seq!['\n']);
    }
    let all = str_lines(str_replace(stdout, "-", "_").as_str());
    let mut out: Vec<String> = Vec::new();
    let mut i: usize = 0;
    while i < all.len()
        invariant
            i <= all.len(),
            out@.len() == i,
            forall|k: int| 0 <= k < i ==> (#[trigger] out@[k])@ == number_line(all@[k]@),
        decreases all.len() - i,
    {
        out.push(replace_first("[0-9]+;[0-9]+", all[i].as_str(), "0"));
        i = i + 1;
    }
    assert(texts(out@) =~= Seq::new(
        texts(all@).len(),
        |i: int| number_line(texts(all@)[i]),
    ));
    str_join(&out, "\n")
}

/// The details of the conventions for time, made fit to be read as a
/// table of keys and values.
pub fn format_time_details(stdout: &str) -> (r: String)
    ensures
        r@ == time_details(stdout@),
{
    proof {
        reveal_strlit("-");
        reveal_strlit("_");
        reveal_strlit("\n");
        reveal_strlit("\"");
        reveal_strlit("\"\"");
        assert("-"@ =~= seq!['-']);
        assert("_"@ =~= seq!['_']);
        assert("\n"@ =~= seq!['\n']);
        assert("\""@ =~= seq!['"']);
        assert("\"\""@ =~= seq!['"', '"']);
    }
    let all = str_lines(str_replace(stdout, "-", "_").as_str());
    let mut out: Vec<String> = Vec::new();
    let mut i: usize = 0;
    assert(texts(all@).take(0) =~= Seq::<Seq<char>>::empty());
    assert(texts(out@) =~= Seq::<Seq<char>>::empty());
    while i < all.len()
        invariant
            i <= all.len(),
            "\""@ == seq!['"'],
            "\"\""@ == seq!['"', '"'],
            texts(out@) == time_lines(texts(all@).take(i as int)),
        decreases all.len() - i,
    {
        let ghost head = texts(all@).take(i + 1);
        assert(head.drop_last() =~= texts(all@).take(i as int));
        assert(head.last() == all@[i as int]@);
        let line = all[i].as_str();
        if !str_starts_with(line, "time_era_entries=") {
            let ghost before = texts(out@);
            let value = get_val_from_keyval(line, None);
            if value.as_str().unicode_len() == 0 && !str_contains(line, "\"") {
                out.push(str_concat(line, "\"\""));
            } else {
                out.push(all[i].clone());
            }
            assert(texts(out@) =~= before.push(time_line(line@)));
        }
        i = i + 1;
    }
    assert(texts(all@).take(all.len() as int) =~= texts(all@));
    str_join(&out, "\n")
}

} // verus!
