//! Protocol messages and the tables that map them to and from their wire
//! values, which differ between client builds.
use vstd::prelude::*;

verus! {

/// A protocol message, or `UNKNOWN` for a wire value that no message has.
#[allow(non_camel_case_types)]
#[derive(Clone, Copy, Debug, PartialEq, Eq, Structural, Hash)]
pub enum Opcode {
    UNKNOWN,
    C_CHECK_VERSION,
    S_CHECK_VERSION,
    C_LOGIN_ARBITER,
    S_LOGIN_ARBITER,
    C_GET_USER_LIST,
    S_GET_USER_LIST,
    C_CAN_CREATE_USER,
    S_CAN_CREATE_USER,
    C_CHECK_USER_NAME,
    S_CHECK_USER_NAME,
}

/// Number of `Opcode` variants.
pub const OPCODE_COUNT: usize = 11;

pub open spec fn opcode_index(o: Opcode) -> int {
    match o {
        Opcode::UNKNOWN => 0,
        Opcode::C_CHECK_VERSION => 1,
        Opcode::S_CHECK_VERSION => 2,
        Opcode::C_LOGIN_ARBITER => 3,
        Opcode::S_LOGIN_ARBITER => 4,
        Opcode::C_GET_USER_LIST => 5,
        Opcode::S_GET_USER_LIST => 6,
        Opcode::C_CAN_CREATE_USER => 7,
        Opcode::S_CAN_CREATE_USER => 8,
        Opcode::C_CHECK_USER_NAME => 9,
        Opcode::S_CHECK_USER_NAME => 10,
    }
}

pub proof fn lemma_opcode_index_injective(a: Opcode, b: Opcode)
    ensures
        opcode_index(a) == opcode_index(b) <==> a == b,
        0 <= opcode_index(a) < OPCODE_COUNT,
{
}

impl Opcode {
    /// Position of the variant in declaration order.
    pub fn index(&self) -> (r: usize)
        ensures
            r == opcode_index(*self),
            r < OPCODE_COUNT,
    {
        match self {
            Opcode::UNKNOWN => 0,
            Opcode::C_CHECK_VERSION => 1,
            Opcode::S_CHECK_VERSION => 2,
            Opcode::C_LOGIN_ARBITER => 3,
            Opcode::S_LOGIN_ARBITER => 4,
            Opcode::C_GET_USER_LIST => 5,
            Opcode::S_GET_USER_LIST => 6,
            Opcode::C_CAN_CREATE_USER => 7,
            Opcode::S_CAN_CREATE_USER => 8,
            Opcode::C_CHECK_USER_NAME => 9,
            Opcode::S_CHECK_USER_NAME => 10,
        }
    }
}


#[derive(Clone, Copy, Debug, PartialEq, Eq, Structural)]
pub enum OpcodeTableError {
    /// An entry maps `UNKNOWN`, which stands for unmapped values.
    UnknownName,
    /// Two entries map the same message.
    DuplicateName,
    /// Two entries use the same wire value.
    DuplicateNumber,
}

pub open spec fn has_unknown(s: Seq<(Opcode, u16)>) -> bool {
    exists|i: int| 0 <= i < s.len() && (#[trigger] s[i]).0 == Opcode::UNKNOWN
}

pub open spec fn has_duplicate_name(s: Seq<(Opcode, u16)>) -> bool {
    exists|i: int, j: int| 0 <= i < j < s.len() && (#[trigger] s[i]).0 == (#[trigger] s[j]).0
}

pub open spec fn has_duplicate_number(s: Seq<(Opcode, u16)>) -> bool {
    exists|i: int, j: int| 0 <= i < j < s.len() && (#[trigger] s[i]).1 == (#[trigger] s[j]).1
}

/// One more than the largest wire value of `s`; zero when `s` is empty.
pub open spec fn table_len(s: Seq<(Opcode, u16)>) -> nat
    decreases s.len(),
{
    if s.len() == 0 {
        0
    } else {
        let rest = table_len(s.drop_last());
        if s.last().1 as nat + 1 > rest {
            s.last().1 as nat + 1
        } else {
            rest
        }
    }
}

proof fn lemma_table_len_bounds(s: Seq<(Opcode, u16)>)
    ensures
        table_len(s) <= 0x1_0000,
        forall|i: int| 0 <= i < s.len() ==> (#[trigger] s[i]).1 < table_len(s),
    decreases s.len(),
{
    if s.len() > 0 {
        lemma_table_len_bounds(s.drop_last());
        assert forall|i: int| 0 <= i < s.len() implies (#[trigger] s[i]).1 < table_len(s) by {
            if i < s.len() - 1 {
                assert(s.drop_last()[i] == s[i]);
            }
        }
    }
}

/// The two mappings between wire values and messages; immutable once built.
pub struct OpcodeTable {
    forward: Vec<Opcode>,
    reverse: Vec<Option<u16>>,
}

impl OpcodeTable {
    /// The message of a wire value.
    pub closed spec fn lookup(&self, w: int) -> Opcode {
        if 0 <= w < self.forward@.len() {
            self.forward@[w]
        } else {
            Opcode::UNKNOWN
        }
    }

    /// The wire value of a message, if it has one.
    pub closed spec fn reverse_lookup(&self, o: Opcode) -> Option<u16> {
        self.reverse@[opcode_index(o)]
    }

    /// Length of the dense forward table.
    pub closed spec fn forward_len(&self) -> nat {
        self.forward@.len()
    }

    pub closed spec fn wf(&self) -> bool {
        &&& self.reverse@.len() == OPCODE_COUNT
        &&& self.forward@.len() <= 0x1_0000
        &&& self.reverse@[0] is None
        &&& forall|w: int|
            0 <= w < self.forward@.len() && self.forward@[w] != Opcode::UNKNOWN
                ==> self.reverse@[opcode_index(#[trigger] self.forward@[w])] == Some(w as u16)
        &&& forall|k: int|
            0 <= k < OPCODE_COUNT && (#[trigger] self.reverse@[k]) is Some ==> {
                let w = self.reverse@[k]->Some_0 as int;
                w < self.forward@.len() && opcode_index(self.forward@[w]) == k
            }
    }

    /// The tables hold exactly the entries of `s`.
    pub open spec fn built_from(&self, s: Seq<(Opcode, u16)>) -> bool {
        &&& self.wf()
        &&& self.forward_len() == table_len(s)
        &&& forall|i: int|
            0 <= i < s.len() ==> self.lookup((#[trigger] s[i]).1 as int) == s[i].0
                && self.reverse_lookup(s[i].0) == Some(s[i].1)
        &&& forall|w: int|
            #![trigger self.lookup(w)]
            (forall|i: int| 0 <= i < s.len() ==> (#[trigger] s[i]).1 != w) ==> self.lookup(w)
                == Opcode::UNKNOWN
        &&& forall|o: Opcode|
            #![trigger self.reverse_lookup(o)]
            (forall|i: int| 0 <= i < s.len() ==> (#[trigger] s[i]).0 != o)
                ==> self.reverse_lookup(o) is None
    }

    /// Builds both tables from `(message, wire value)` entries. The forward
    /// table is dense up to the largest wire value.
    pub fn from_mapping(entries: &Vec<(Opcode, u16)>) -> (r: Result<OpcodeTable, OpcodeTableError>)
        ensures
            r is Ok <==> !has_unknown(entries@) && !has_duplicate_name(entries@)
                && !has_duplicate_number(entries@),
            r matches Ok(t) ==> t.built_from(entries@),
            r == Err::<OpcodeTable, OpcodeTableError>(OpcodeTableError::UnknownName) ==> has_unknown(
                entries@,
            ),
            r == Err::<OpcodeTable, OpcodeTableError>(OpcodeTableError::DuplicateName)
                ==> has_duplicate_name(entries@),
            r == Err::<OpcodeTable, OpcodeTableError>(OpcodeTableError::DuplicateNumber)
                ==> has_duplicate_number(entries@),
    {
        let ghost s = entries@;
        proof {
            lemma_table_len_bounds(s);
        }
        let mut len: usize = 0;
        let mut i: usize = 0;
        while i < entries.len()
            invariant
                i <= s.len(),
                s == entries@,
                len == table_len(s.subrange(0, i as int)),
            decreases s.len() - i,
        {
            proof {
                assert(s.subrange(0, i + 1).drop_last() =~= s.subrange(0, i as int));
                lemma_table_len_bounds(s.subrange(0, i as int));
            }
            let w = entries[i].1 as usize;
            if w + 1 > len {
                len = w + 1;
            }
            i = i + 1;
        }
        proof {
            assert(s.subrange(0, s.len() as int) =~= s);
        }
        let mut forward: Vec<Opcode> = Vec::new();
        while forward.len() < len
            invariant
                forward.len() <= len,
                forall|w: int| 0 <= w < forward@.len() ==> forward@[w] == Opcode::UNKNOWN,
            decreases len - forward.len(),
        {
            forward.push(Opcode::UNKNOWN);
        }
        let mut reverse: Vec<Option<u16>> = Vec::new();
        while reverse.len() < OPCODE_COUNT
            invariant
                reverse.len() <= OPCODE_COUNT,
                forall|k: int| 0 <= k < reverse@.len() ==> reverse@[k] is None,
            decreases OPCODE_COUNT - reverse.len(),
        {
            reverse.push(None);
        }
        let mut i: usize = 0;
        while i < entries.len()
            invariant
                i <= s.len(),
                s == entries@,
                len == table_len(s),
                forward@.len() == len,
                reverse@.len() == OPCODE_COUNT,
                len <= 0x1_0000,
                forall|j: int| 0 <= j < s.len() ==> (#[trigger] s[j]).1 < len,
                reverse@[0] is None,
                forall|j: int|
                    0 <= j < i ==> forward@[(#[trigger] s[j]).1 as int] == s[j].0
                        && reverse@[opcode_index(s[j].0)] == Some(s[j].1),
                forall|w: int|
                    0 <= w < len && forward@[w] != Opcode::UNKNOWN ==> exists|j: int|
                        0 <= j < i && (#[trigger] s[j]).1 == w,
                forall|k: int|
                    0 <= k < OPCODE_COUNT && (#[trigger] reverse@[k]) is Some ==> exists|j: int|
                        0 <= j < i && opcode_index((#[trigger] s[j]).0) == k,
                forall|j: int| 0 <= j < i ==> (#[trigger] s[j]).0 != Opcode::UNKNOWN,
                forall|j1: int, j2: int|
                    0 <= j1 < j2 < i ==> (#[trigger] s[j1]).0 != (#[trigger] s[j2]).0,
                forall|j1: int, j2: int|
                    0 <= j1 < j2 < i ==> (#[trigger] s[j1]).1 != (#[trigger] s[j2]).1,
            decreases s.len() - i,
        {
            let (o, w) = entries[i];
            if o == Opcode::UNKNOWN {
                return Err(OpcodeTableError::UnknownName);
            }
            let k = o.index();
            proof {
                lemma_opcode_index_injective(o, o);
            }
            if reverse[k].is_some() {
                proof {
                    let j = choose|j: int| 0 <= j < i && opcode_index((#[trigger] s[j]).0) == k;
                    lemma_opcode_index_injective(s[j].0, o);
                    assert(s[j].0 == s[i as int].0);
                }
                return Err(OpcodeTableError::DuplicateName);
            }
            if forward[w as usize] != Opcode::UNKNOWN {
                proof {
                    let j = choose|j: int| 0 <= j < i && (#[trigger] s[j]).1 == w;
                    assert(s[j].1 == s[i as int].1);
                }
                return Err(OpcodeTableError::DuplicateNumber);
            }
            forward.set(w as usize, o);
            reverse.set(k, Some(w));
            proof {
                assert forall|j: int|
                    0 <= j < i + 1 implies forward@[(#[trigger] s[j]).1 as int] == s[j].0
                    && reverse@[opcode_index(s[j].0)] == Some(s[j].1) by {
                    if j < i {
                        lemma_opcode_index_injective(s[j].0, o);
                    }
                }
                assert forall|ww: int|
                    0 <= ww < len && forward@[ww] != Opcode::UNKNOWN implies exists|j: int|
                    0 <= j < i + 1 && (#[trigger] s[j]).1 == ww by {
                    if ww == w as int {
                        assert(s[i as int].1 == ww);
                    }
                }
                assert forall|kk: int|
                    0 <= kk < OPCODE_COUNT && (#[trigger] reverse@[kk]) is Some implies exists|
                    j: int,
                | 0 <= j < i + 1 && opcode_index((#[trigger] s[j]).0) == kk by {
                    if kk == k as int {
                        assert(opcode_index(s[i as int].0) == kk);
                    }
                }
            }
            i = i + 1;
        }
        let t = OpcodeTable { forward, reverse };
        proof {
            assert forall|ww: int|
                0 <= ww < t.forward@.len() && t.forward@[ww] != Opcode::UNKNOWN implies t.reverse@[opcode_index(#[trigger] t.forward@[ww])] == Some(ww as u16) by {
                let j = choose|j: int| 0 <= j < s.len() && (#[trigger] s[j]).1 == ww;
                assert(t.forward@[s[j].1 as int] == s[j].0);
            }
            assert forall|kk: int|
                0 <= kk < OPCODE_COUNT && (#[trigger] t.reverse@[kk]) is Some implies {
                    let w = t.reverse@[kk]->Some_0 as int;
                    w < t.forward@.len() && opcode_index(t.forward@[w]) == kk
                } by {
                let j = choose|j: int| 0 <= j < s.len() && opcode_index((#[trigger] s[j]).0) == kk;
                assert(t.reverse@[opcode_index(s[j].0)] == Some(s[j].1));
            }
            assert(t.wf());
            assert forall|o: Opcode|
                (forall|i: int| 0 <= i < s.len() ==> (#[trigger] s[i]).0 != o) implies #[trigger] t.reverse_lookup(o) is None by {
                lemma_opcode_index_injective(o, o);
                if t.reverse@[opcode_index(o)] is Some {
                    let j = choose|j: int| 0 <= j < s.len() && opcode_index((#[trigger] s[j]).0) == opcode_index(o);
                    lemma_opcode_index_injective(s[j].0, o);
                }
            }
            assert forall|ww: int|
                (forall|i: int| 0 <= i < s.len() ==> (#[trigger] s[i]).1 != ww) implies #[trigger] t.lookup(ww) == Opcode::UNKNOWN by {
                if 0 <= ww < t.forward@.len() && t.forward@[ww] != Opcode::UNKNOWN {
                    let j = choose|j: int| 0 <= j < s.len() && (#[trigger] s[j]).1 == ww;
                }
            }
        }
        Ok(t)
    }

    /// The message of a wire value; `UNKNOWN` where none is mapped.
    pub fn get(&self, w: u16) -> (r: Opcode)
        requires
            self.wf(),
        ensures
            r == self.lookup(w as int),
            w as int >= self.forward_len() ==> r == Opcode::UNKNOWN,
    {
        if (w as usize) < self.forward.len() {
            self.forward[w as usize]
        } else {
            Opcode::UNKNOWN
        }
    }

    /// The wire value of a message, if the table maps it.
    pub fn get_reverse(&self, o: Opcode) -> (r: Option<u16>)
        requires
            self.wf(),
        ensures
            r == self.reverse_lookup(o),
    {
        proof {
            lemma_opcode_index_injective(o, o);
        }
        self.reverse[o.index()]
    }
}


/// Of tables built from entries: a wire value that maps to a message comes
/// back through the reverse table, and a wire value that no entry uses maps
/// to `UNKNOWN`.
pub proof fn lemma_table_round_trip(s: Seq<(Opcode, u16)>, t: OpcodeTable, w: u16)
    requires
        t.built_from(s),
    ensures
        t.lookup(w as int) != Opcode::UNKNOWN ==> t.reverse_lookup(t.lookup(w as int)) == Some(w),
        (forall|i: int| 0 <= i < s.len() ==> (#[trigger] s[i]).1 != w) ==> t.lookup(w as int)
            == Opcode::UNKNOWN,
        w as int >= t.forward_len() ==> t.lookup(w as int) == Opcode::UNKNOWN,
{
}

} // verus!
