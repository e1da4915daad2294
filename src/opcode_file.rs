//! The opcode mapping file: one `NAME: NUMBER` per line, in decimal, for
//! one client build. Blank lines and lines that start with `#` are skipped,
//! and so are names that no message has.
use vstd::prelude::*;
use crate::opcode::{has_unknown, has_duplicate_name, has_duplicate_number, Opcode, OpcodeTable, OpcodeTableError};

verus! {

#[derive(Clone, Copy, Debug, PartialEq, Eq, Structural)]
pub enum OpcodeFileError {
    /// A line that is neither blank nor a comment has no `:`.
    MissingSeparator,
    /// The text after the `:` is not a decimal number.
    InvalidNumber,
    /// The number does not fit in a `u16`.
    NumberOutOfRange,
    /// Two lines name the same message.
    DuplicateName,
    /// Two lines of known messages use the same number.
    DuplicateNumber,
}

/// The message that `n` names, or `UNKNOWN`.
pub open spec fn opcode_of_name(n: Seq<char>) -> Opcode {
    if n == "C_CHECK_VERSION"@ {
        Opcode::C_CHECK_VERSION
    } else if n == "S_CHECK_VERSION"@ {
        Opcode::S_CHECK_VERSION
    } else if n == "C_LOGIN_ARBITER"@ {
        Opcode::C_LOGIN_ARBITER
    } else if n == "S_LOGIN_ARBITER"@ {
        Opcode::S_LOGIN_ARBITER
    } else if n == "C_GET_USER_LIST"@ {
        Opcode::C_GET_USER_LIST
    } else if n == "S_GET_USER_LIST"@ {
        Opcode::S_GET_USER_LIST
    } else if n == "C_CAN_CREATE_USER"@ {
        Opcode::C_CAN_CREATE_USER
    } else if n == "S_CAN_CREATE_USER"@ {
        Opcode::S_CAN_CREATE_USER
    } else if n == "C_CHECK_USER_NAME"@ {
        Opcode::C_CHECK_USER_NAME
    } else if n == "S_CHECK_USER_NAME"@ {
        Opcode::S_CHECK_USER_NAME
    } else {
        Opcode::UNKNOWN
    }
}

/// Whether `a` holds the characters of `lit`.
fn chars_equal(a: &[char], lit: &str) -> (r: bool)
    ensures
        r == (a@ == lit@),
{
    let n = lit.unicode_len();
    if a.len() != n {
        return false;
    }
    let mut i: usize = 0;
    while i < n
        invariant
            i <= n,
            n == lit@.len(),
            a@.len() == n,
            forall|j: int| 0 <= j < i ==> a@[j] == lit@[j],
        decreases n - i,
    {
        if a[i] != lit.get_char(i) {
            return false;
        }
        i = i + 1;
    }
    proof {
        assert(a@ =~= lit@);
    }
    true
}

impl Opcode {
    /// The message named `name`, or `UNKNOWN`.
    pub fn from_name(name: &[char]) -> (r: Opcode)
        ensures
            r == opcode_of_name(name@),
    {
        if chars_equal(name, "C_CHECK_VERSION") {
            Opcode::C_CHECK_VERSION
        } else if chars_equal(name, "S_CHECK_VERSION") {
            Opcode::S_CHECK_VERSION
        } else if chars_equal(name, "C_LOGIN_ARBITER") {
            Opcode::C_LOGIN_ARBITER
        } else if chars_equal(name, "S_LOGIN_ARBITER") {
            Opcode::S_LOGIN_ARBITER
        } else if chars_equal(name, "C_GET_USER_LIST") {
            Opcode::C_GET_USER_LIST
        } else if chars_equal(name, "S_GET_USER_LIST") {
            Opcode::S_GET_USER_LIST
        } else if chars_equal(name, "C_CAN_CREATE_USER") {
            Opcode::C_CAN_CREATE_USER
        } else if chars_equal(name, "S_CAN_CREATE_USER") {
            Opcode::S_CAN_CREATE_USER
        } else if chars_equal(name, "C_CHECK_USER_NAME") {
            Opcode::C_CHECK_USER_NAME
        } else if chars_equal(name, "S_CHECK_USER_NAME") {
            Opcode::S_CHECK_USER_NAME
        } else {
            Opcode::UNKNOWN
        }
    }
}


pub open spec fn is_blank(c: char) -> bool {
    c == ' ' || c == '\t' || c == '\r'
}

pub open spec fn trim_start(s: Seq<char>) -> Seq<char>
    decreases s.len(),
{
    if s.len() > 0 && is_blank(s[0]) {
        trim_start(s.drop_first())
    } else {
        s
    }
}

pub open spec fn trim_end(s: Seq<char>) -> Seq<char>
    decreases s.len(),
{
    if s.len() > 0 && is_blank(s.last()) {
        trim_end(s.drop_last())
    } else {
        s
    }
}

/// `s` without blanks at either end.
pub open spec fn trim(s: Seq<char>) -> Seq<char> {
    trim_end(trim_start(s))
}

pub open spec fn is_digit(c: char) -> bool {
    '0' <= c && c <= '9'
}

/// The value of a run of decimal digits.
pub open spec fn decimal_value(s: Seq<char>) -> nat
    decreases s.len(),
{
    if s.len() == 0 {
        0
    } else {
        decimal_value(s.drop_last()) * 10 + (s.last() as nat - '0' as nat) as nat
    }
}

/// The number that `s` spells, or why it spells none.
pub open spec fn number_of(s: Seq<char>) -> Result<u16, OpcodeFileError> {
    if s.len() == 0 || exists|i: int| 0 <= i < s.len() && !is_digit(#[trigger] s[i]) {
        Err(OpcodeFileError::InvalidNumber)
    } else if decimal_value(s) > u16::MAX {
        Err(OpcodeFileError::NumberOutOfRange)
    } else {
        Ok(decimal_value(s) as u16)
    }
}

/// Index of the first `c` in `s` at or after `from`, or the length of `s`.
pub open spec fn find_from(s: Seq<char>, c: char, from: int) -> int
    decreases s.len() - from,
{
    if from >= s.len() || s[from] == c {
        from
    } else {
        find_from(s, c, from + 1)
    }
}

/// What one line contributes: nothing, one entry, or an error.
pub open spec fn parse_line_spec(line: Seq<char>) -> Result<Option<(Opcode, u16)>, OpcodeFileError> {
    let t = trim(line);
    if t.len() == 0 || t[0] == '#' {
        Ok(None)
    } else {
        let c = find_from(t, ':', 0);
        if c >= t.len() {
            Err(OpcodeFileError::MissingSeparator)
        } else {
            match number_of(trim(t.subrange(c + 1, t.len() as int))) {
                Err(e) => Err(e),
                Ok(w) => {
                    let o = opcode_of_name(trim(t.subrange(0, c)));
                    if o == Opcode::UNKNOWN {
                        Ok(None)
                    } else {
                        Ok(Some((o, w)))
                    }
                },
            }
        }
    }
}

proof fn lemma_find_from_bounds(s: Seq<char>, c: char, from: int)
    requires
        0 <= from <= s.len(),
    ensures
        from <= find_from(s, c, from) <= s.len(),
        find_from(s, c, from) < s.len() ==> s[find_from(s, c, from)] == c,
    decreases s.len() - from,
{
    if from < s.len() && s[from] != c {
        lemma_find_from_bounds(s, c, from + 1);
    }
}

proof fn lemma_decimal_value_grows(s: Seq<char>, k: int)
    requires
        0 <= k <= s.len(),
        forall|i: int| 0 <= i < s.len() ==> is_digit(#[trigger] s[i]),
    ensures
        decimal_value(s.subrange(0, k)) <= decimal_value(s),
    decreases s.len() - k,
{
    if k < s.len() {
        assert(s.drop_last() =~= s.subrange(0, s.len() - 1));
        assert(s.subrange(0, s.len() - 1).subrange(0, k) =~= s.subrange(0, k));
        lemma_decimal_value_grows(s.drop_last(), k);
    } else {
        assert(s.subrange(0, k) =~= s);
    }
}

/// The entries of the lines of `s` from index `from` on, or the error of the
/// first line that has one.
pub open spec fn entries_from(s: Seq<char>, from: int) -> Result<Seq<(Opcode, u16)>, OpcodeFileError>
    decreases s.len() + 1 - from,
    via entries_from_decreases
{
    if from < 0 || from > s.len() {
        Ok(Seq::empty())
    } else {
        let e = find_from(s, '\n', from);
        match parse_line_spec(s.subrange(from, e)) {
            Err(x) => Err(x),
            Ok(p) => match entries_from(s, e + 1) {
                Err(x) => Err(x),
                Ok(rest) => Ok(
                    match p {
                        None => rest,
                        Some(x) => seq![x] + rest,
                    },
                ),
            },
        }
    }
}

#[via_fn]
proof fn entries_from_decreases(s: Seq<char>, from: int) {
    if 0 <= from <= s.len() {
        lemma_find_from_bounds(s, '\n', from);
    }
}

/// The entries of a whole mapping file.
pub open spec fn file_entries(s: Seq<char>) -> Result<Seq<(Opcode, u16)>, OpcodeFileError> {
    entries_from(s, 0)
}

proof fn lemma_entries_known(s: Seq<char>, from: int)
    ensures
        entries_from(s, from) matches Ok(es) ==> !has_unknown(es),
    decreases s.len() + 1 - from,
{
    if 0 <= from <= s.len() {
        let e = find_from(s, '\n', from);
        lemma_find_from_bounds(s, '\n', from);
        lemma_entries_known(s, e + 1);
        if let Ok(es) = entries_from(s, from) {
            if let Ok(Some(x)) = parse_line_spec(s.subrange(from, e)) {
                let rest = entries_from(s, e + 1)->Ok_0;
                assert(es == seq![x] + rest);
                assert forall|i: int| 0 <= i < es.len() implies (#[trigger] es[i]).0
                    != Opcode::UNKNOWN by {
                    if i > 0 {
                        assert(es[i] == rest[i - 1]);
                    }
                }
            }
        }
    }
}

/// A copy of `s[a..b]`.
fn copy_range(s: &[char], a: usize, b: usize) -> (r: Vec<char>)
    requires
        a <= b <= s@.len(),
    ensures
        r@ == s@.subrange(a as int, b as int),
{
    let mut r: Vec<char> = Vec::new();
    let mut i: usize = a;
    while i < b
        invariant
            a <= i <= b,
            b <= s@.len(),
            r@ == s@.subrange(a as int, i as int),
        decreases b - i,
    {
        r.push(s[i]);
        proof {
            assert(r@ =~= s@.subrange(a as int, i + 1));
        }
        i = i + 1;
    }
    r
}

/// The slice of `s` without blanks at either end.
fn trim_chars(s: &[char]) -> (r: (usize, usize))
    ensures
        r.0 <= r.1 <= s@.len(),
        s@.subrange(r.0 as int, r.1 as int) == trim(s@),
{
    let mut a: usize = 0;
    proof {
        assert(s@.subrange(0, s@.len() as int) =~= s@);
    }
    while a < s.len() && (s[a] == ' ' || s[a] == '\t' || s[a] == '\r')
        invariant
            a <= s@.len(),
            trim_start(s@) == trim_start(s@.subrange(a as int, s@.len() as int)),
        decreases s@.len() - a,
    {
        proof {
            assert(s@.subrange(a as int, s@.len() as int).drop_first() =~= s@.subrange(
                a + 1,
                s@.len() as int,
            ));
        }
        a = a + 1;
    }
    let ghost ts = s@.subrange(a as int, s@.len() as int);
    proof {
        assert(trim_start(ts) == ts);
        assert(trim_start(s@) == ts);
    }
    let mut b: usize = s.len();
    while b > a && (s[b - 1] == ' ' || s[b - 1] == '\t' || s[b - 1] == '\r')
        invariant
            a <= b <= s@.len(),
            ts == s@.subrange(a as int, s@.len() as int),
            trim_end(ts) == trim_end(s@.subrange(a as int, b as int)),
        decreases b - a,
    {
        proof {
            assert(s@.subrange(a as int, b as int).drop_last() =~= s@.subrange(a as int, b - 1));
        }
        b = b - 1;
    }
    (a, b)
}

/// The number that the characters spell.
fn parse_number(s: &[char]) -> (r: Result<u16, OpcodeFileError>)
    ensures
        r == number_of(s@),
{
    if s.len() == 0 {
        return Err(OpcodeFileError::InvalidNumber);
    }
    let mut i: usize = 0;
    while i < s.len()
        invariant
            i <= s@.len(),
            forall|j: int| 0 <= j < i ==> is_digit(#[trigger] s@[j]),
        decreases s@.len() - i,
    {
        if !('0' <= s[i] && s[i] <= '9') {
            proof {
                assert(!is_digit(s@[i as int]));
            }
            return Err(OpcodeFileError::InvalidNumber);
        }
        i = i + 1;
    }
    let mut v: u32 = 0;
    let mut k: usize = 0;
    while k < s.len()
        invariant
            k <= s@.len(),
            forall|j: int| 0 <= j < s@.len() ==> is_digit(#[trigger] s@[j]),
            v == decimal_value(s@.subrange(0, k as int)),
            v <= u16::MAX,
        decreases s@.len() - k,
    {
        let d = (s[k] as u32) - ('0' as u32);
        proof {
            assert(s@.subrange(0, k + 1).drop_last() =~= s@.subrange(0, k as int));
        }
        v = v * 10 + d;
        if v > 0xffff {
            proof {
                lemma_decimal_value_grows(s@, k + 1);
            }
            return Err(OpcodeFileError::NumberOutOfRange);
        }
        k = k + 1;
    }
    proof {
        assert(s@.subrange(0, s@.len() as int) =~= s@);
    }
    Ok(v as u16)
}


/// What one line of the file contributes.
fn parse_line(line: &[char]) -> (r: Result<Option<(Opcode, u16)>, OpcodeFileError>)
    ensures
        r == parse_line_spec(line@),
{
    let (a, b) = trim_chars(line);
    let t = copy_range(line, a, b);
    if t.len() == 0 || t[0] == '#' {
        return Ok(None);
    }
    let mut c: usize = 0;
    while c < t.len() && t[c] != ':'
        invariant
            c <= t@.len(),
            find_from(t@, ':', 0) == find_from(t@, ':', c as int),
        decreases t@.len() - c,
    {
        c = c + 1;
    }
    if c >= t.len() {
        return Err(OpcodeFileError::MissingSeparator);
    }
    let rest = copy_range(t.as_slice(), c + 1, t.len());
    let (ra, rb) = trim_chars(rest.as_slice());
    let num = copy_range(rest.as_slice(), ra, rb);
    let w = match parse_number(num.as_slice()) {
        Ok(w) => w,
        Err(e) => {
            return Err(e);
        },
    };
    let head = copy_range(t.as_slice(), 0, c);
    let (ha, hb) = trim_chars(head.as_slice());
    let name = copy_range(head.as_slice(), ha, hb);
    let o = Opcode::from_name(name.as_slice());
    if o == Opcode::UNKNOWN {
        Ok(None)
    } else {
        Ok(Some((o, w)))
    }
}

/// The `(message, wire value)` entries of a mapping file, in file order.
pub fn parse_opcode_file(text: &[char]) -> (r: Result<Vec<(Opcode, u16)>, OpcodeFileError>)
    requires
        text@.len() < usize::MAX,
    ensures
        match file_entries(text@) {
            Ok(es) => r matches Ok(v) && v@ == es,
            Err(e) => r == Err::<Vec<(Opcode, u16)>, OpcodeFileError>(e),
        },
{
    let ghost s = text@;
    let mut out: Vec<(Opcode, u16)> = Vec::new();
    let mut start: usize = 0;
    while start <= text.len()
        invariant
            s == text@,
            s.len() < usize::MAX,
            start <= s.len() + 1,
            file_entries(s) == match entries_from(s, start as int) {
                Ok(rest) => Ok::<Seq<(Opcode, u16)>, OpcodeFileError>(out@ + rest),
                Err(x) => Err(x),
            },
        decreases s.len() + 1 - start,
    {
        let mut e: usize = start;
        while e < text.len() && text[e] != '\n'
            invariant
                start <= e <= s.len(),
                s == text@,
                find_from(s, '\n', start as int) == find_from(s, '\n', e as int),
            decreases s.len() - e,
        {
            e = e + 1;
        }
        let line = copy_range(text, start, e);
        let ghost old_out = out@;
        match parse_line(line.as_slice()) {
            Err(x) => {
                return Err(x);
            },
            Ok(None) => {},
            Ok(Some(p)) => {
                out.push(p);
            },
        }
        proof {
            match entries_from(s, e + 1) {
                Ok(rest) => {
                    assert(out@ + rest =~= old_out + match parse_line_spec(line@) {
                        Ok(Some(x)) => seq![x] + rest,
                        _ => rest,
                    });
                },
                Err(_) => {},
            }
        }
        start = e + 1;
    }
    proof {
        assert(out@ + Seq::<(Opcode, u16)>::empty() =~= out@);
    }
    Ok(out)
}

/// Builds the tables from a mapping file.
pub fn table_from_file(text: &[char]) -> (r: Result<OpcodeTable, OpcodeFileError>)
    requires
        text@.len() < usize::MAX,
    ensures
        file_entries(text@) matches Err(e) ==> r == Err::<OpcodeTable, OpcodeFileError>(e),
        file_entries(text@) matches Ok(es) ==> {
            &&& (r is Ok <==> !has_duplicate_name(es) && !has_duplicate_number(es))
            &&& (r matches Ok(t) ==> t.built_from(es))
            &&& (r == Err::<OpcodeTable, OpcodeFileError>(OpcodeFileError::DuplicateName)
                ==> has_duplicate_name(es))
            &&& (r == Err::<OpcodeTable, OpcodeFileError>(OpcodeFileError::DuplicateNumber)
                ==> has_duplicate_number(es))
        },
{
    let entries = parse_opcode_file(text)?;
    proof {
        lemma_entries_known(text@, 0);
    }
    match OpcodeTable::from_mapping(&entries) {
        Ok(t) => Ok(t),
        Err(OpcodeTableError::DuplicateName) => Err(OpcodeFileError::DuplicateName),
        Err(OpcodeTableError::DuplicateNumber) => Err(OpcodeFileError::DuplicateNumber),
        // Not reached: parsed entries never name `UNKNOWN`.
        Err(OpcodeTableError::UnknownName) => Err(OpcodeFileError::DuplicateName),
    }
}

} // verus!
