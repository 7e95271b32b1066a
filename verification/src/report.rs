//! Measurement records and the tab-separated comparison report.
//!
//! One record per artifact pairs the hardware-measured cycle count
//! with the symbolically-estimated worst case. The report is a
//! header line followed by one line per record, in corpus enumeration
//! order, every line tab-separated.

use vstd::prelude::*;
use vstd::string::StringExecFns;
use vstd::string::StringSliceAdditionalSpecFns;

verus! {

/// The per-artifact comparison of the two measurement methods,
/// built once and immutable thereafter. The name is the artifact
/// path's final component.
#[derive(Debug)]
pub struct Measurement {
    /// Display name of the binary artifact.
    pub name: String,
    /// Cycles measured on the physical target.
    pub hw: u64,
    /// Worst-case cycles over all symbolically explored paths.
    pub symex: u64,
}

/// The byte encoding a path separator.
pub const PATH_SEPARATOR: u8 = 47;

/// `cut` marks the start of a path's final component: it sits just
/// after the last separator byte, and no separator follows it. A
/// separator is a single ASCII byte, so the final component is
/// exactly the bytes from `cut` on.
pub open spec fn is_name_cut(bytes: Seq<u8>, cut: int) -> bool {
    &&& 0 <= cut <= bytes.len()
    &&& (cut == 0 || bytes[cut - 1] == PATH_SEPARATOR)
    &&& forall|i: int| cut <= i < bytes.len() ==> bytes[i] != PATH_SEPARATOR
}

/// The byte index at which an artifact path's display name — its
/// final path component — begins.
pub fn base_name_start(path: &str) -> (cut: usize)
    ensures
        is_name_cut(path.spec_bytes(), cut as int),
{
    let bytes = path.as_bytes();
    let mut cut: usize = 0;
    let mut i: usize = 0;
    while i < bytes.len()
        invariant
            0 <= cut <= i <= bytes@.len(),
            bytes@ == path.spec_bytes(),
            cut == 0 || bytes@[cut - 1] == PATH_SEPARATOR,
            forall|j: int| cut <= j < i ==> bytes@[j] != PATH_SEPARATOR,
        decreases bytes@.len() - i,
    {
        if bytes[i] == PATH_SEPARATOR {
            cut = i + 1;
        }
        i += 1;
    }
    cut
}

/// The decimal digit character for one digit value.
pub open spec fn digit_char(d: int) -> char {
    if d == 0 {
        '0'
    } else if d == 1 {
        '1'
    } else if d == 2 {
        '2'
    } else if d == 3 {
        '3'
    } else if d == 4 {
        '4'
    } else if d == 5 {
        '5'
    } else if d == 6 {
        '6'
    } else if d == 7 {
        '7'
    } else if d == 8 {
        '8'
    } else {
        '9'
    }
}

/// The usual decimal rendering of a number: most significant digit
/// first, no leading zeros except for the number zero itself.
pub open spec fn dec_chars(n: nat) -> Seq<char>
    decreases n,
{
    if n < 10 {
        seq![digit_char(n as int)]
    } else {
        dec_chars(n / 10).push(digit_char((n % 10) as int))
    }
}

/// How many times character `c` occurs in `s`.
pub open spec fn count_char(s: Seq<char>, c: char) -> nat
    decreases s.len(),
{
    if s.len() == 0 {
        0
    } else {
        count_char(s.drop_last(), c) + (if s.last() == c {
            1nat
        } else {
            0nat
        })
    }
}

/// The occurrence count in a one-character sequence.
pub proof fn lemma_count_char_single(c: char, t: char)
    ensures
        count_char(seq![c], t) == (if c == t {
            1nat
        } else {
            0nat
        }),
{
    assert(seq![c].drop_last() =~= Seq::<char>::empty());
    assert(count_char(Seq::<char>::empty(), t) == 0);
}

/// Occurrence counts add up over concatenation.
pub proof fn lemma_count_char_add(a: Seq<char>, b: Seq<char>, c: char)
    ensures
        count_char(a + b, c) == count_char(a, c) + count_char(b, c),
    decreases b.len(),
{
    if b.len() == 0 {
        assert(a + b =~= a);
    } else {
        lemma_count_char_add(a, b.drop_last(), c);
        assert((a + b).drop_last() =~= a + b.drop_last());
        assert((a + b).last() == b.last());
    }
}

/// A decimal rendering consists of digit characters only, so it
/// never contains a field separator.
pub proof fn lemma_dec_chars_no_tab(n: nat)
    ensures
        count_char(dec_chars(n), '\t') == 0,
    decreases n,
{
    if n < 10 {
        lemma_count_char_single(digit_char(n as int), '\t');
        assert(dec_chars(n) == seq![digit_char(n as int)]);
    } else {
        lemma_dec_chars_no_tab(n / 10);
        assert(dec_chars(n).drop_last() =~= dec_chars(n / 10));
        assert(dec_chars(n).last() == digit_char((n % 10) as int));
    }
}

/// The report's header line.
pub open spec fn header_chars() -> Seq<char> {
    "name\t\thw\tsymex"@
}

/// One data row: the artifact name and the two cycle counts, as
/// three tab-separated fields.
pub open spec fn row_chars(name: Seq<char>, hw: u64, symex: u64) -> Seq<char> {
    name + seq!['\t'] + dec_chars(hw as nat) + seq!['\t'] + dec_chars(symex as nat)
}

/// A data row whose artifact name is free of tabs has exactly three
/// tab-separated fields: it contains exactly two separators.
pub proof fn lemma_row_has_three_fields(name: Seq<char>, hw: u64, symex: u64)
    requires
        count_char(name, '\t') == 0,
    ensures
        count_char(row_chars(name, hw, symex), '\t') == 2,
{
    let tab = seq!['\t'];
    lemma_count_char_single('\t', '\t');
    lemma_dec_chars_no_tab(hw as nat);
    lemma_dec_chars_no_tab(symex as nat);
    lemma_count_char_add(name, tab, '\t');
    lemma_count_char_add(name + tab, dec_chars(hw as nat), '\t');
    lemma_count_char_add(name + tab + dec_chars(hw as nat), tab, '\t');
    lemma_count_char_add(name + tab + dec_chars(hw as nat) + tab, dec_chars(symex as nat), '\t');
}

/// The string slice holding one decimal digit character.
fn digit_str(d: u64) -> (s: &'static str)
    requires
        d < 10,
    ensures
        s@ == seq![digit_char(d as int)],
{
    proof {
        reveal_strlit("0");
        reveal_strlit("1");
        reveal_strlit("2");
        reveal_strlit("3");
        reveal_strlit("4");
        reveal_strlit("5");
        reveal_strlit("6");
        reveal_strlit("7");
        reveal_strlit("8");
        reveal_strlit("9");
    }
    let s: &'static str = if d == 0 {
        "0"
    } else if d == 1 {
        "1"
    } else if d == 2 {
        "2"
    } else if d == 3 {
        "3"
    } else if d == 4 {
        "4"
    } else if d == 5 {
        "5"
    } else if d == 6 {
        "6"
    } else if d == 7 {
        "7"
    } else if d == 8 {
        "8"
    } else {
        "9"
    };
    proof {
        assert(s@ =~= seq![digit_char(d as int)]);
    }
    s
}

/// Renders a cycle count in decimal.
pub fn u64_to_string(n: u64) -> (s: String)
    ensures
        s@ == dec_chars(n as nat),
    decreases n,
{
    if n < 10 {
        String::from_str(digit_str(n))
    } else {
        let mut s = u64_to_string(n / 10);
        s.append(digit_str(n % 10));
        proof {
            assert(s@ =~= dec_chars(n as nat));
        }
        s
    }
}

impl Measurement {
    /// Assembles the record for one artifact.
    pub fn new(name: String, hw: u64, symex: u64) -> (m: Measurement)
        ensures
            m.name@ == name@,
            m.hw == hw,
            m.symex == symex,
    {
        Measurement { name, hw, symex }
    }

    /// Renders this record as one tab-separated report row.
    pub fn render(&self) -> (s: String)
        ensures
            s@ == row_chars(self.name@, self.hw, self.symex),
    {
        proof {
            reveal_strlit("\t");
        }
        let mut s = self.name.clone();
        s.append("\t");
        let hw_str = u64_to_string(self.hw);
        s.append(hw_str.as_str());
        s.append("\t");
        let symex_str = u64_to_string(self.symex);
        s.append(symex_str.as_str());
        proof {
            assert("\t"@ =~= seq!['\t']);
            assert(s@ =~= row_chars(self.name@, self.hw, self.symex));
        }
        s
    }
}

/// The report's header line, exactly as rendered.
pub fn header_line() -> (s: String)
    ensures
        s@ == header_chars(),
{
    String::from_str("name\t\thw\tsymex")
}

/// Renders the whole report: the header line, then one row per
/// record, in the records' own order — corpus enumeration order,
/// independent of name or value.
pub fn render_report(records: &Vec<Measurement>) -> (lines: Vec<String>)
    ensures
        lines@.len() == records@.len() + 1,
        lines@[0]@ == header_chars(),
        forall|i: int|
            0 <= i < records@.len() ==> (#[trigger] lines@[i + 1])@ == row_chars(
                records@[i].name@,
                records@[i].hw,
                records@[i].symex,
            ),
{
    let mut lines: Vec<String> = Vec::new();
    lines.push(header_line());
    let mut i: usize = 0;
    while i < records.len()
        invariant
            0 <= i <= records@.len(),
            lines@.len() == i + 1,
            lines@[0]@ == header_chars(),
            forall|j: int|
                0 <= j < i ==> (#[trigger] lines@[j + 1])@ == row_chars(
                    records@[j].name@,
                    records@[j].hw,
                    records@[j].symex,
                ),
        decreases records@.len() - i,
    {
        lines.push(records[i].render());
        i += 1;
    }
    lines
}

} // verus!
