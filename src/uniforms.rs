use vstd::prelude::*;
use vstd::string::*;

verus! {

/// Largest number of named custom parameters.
pub const MAX_CUSTOM_PARAMS: usize = 16;

/// Lexicographic order on code points, starting at position `i`.
pub open spec fn name_lt_from(a: Seq<char>, b: Seq<char>, i: nat) -> bool
    decreases a.len() - i,
{
    if i >= a.len() {
        i < b.len()
    } else if i >= b.len() {
        false
    } else if (a[i as int] as int) < (b[i as int] as int) {
        true
    } else if a[i as int] == b[i as int] {
        name_lt_from(a, b, i + 1)
    } else {
        false
    }
}

/// Strict lexicographic order on names (the order of `String`'s `Ord`).
pub open spec fn name_lt(a: Seq<char>, b: Seq<char>) -> bool {
    name_lt_from(a, b, 0)
}

proof fn lemma_lt_from_irreflexive(a: Seq<char>, i: nat)
    ensures
        !name_lt_from(a, a, i),
    decreases a.len() - i,
{
    if i < a.len() {
        lemma_lt_from_irreflexive(a, i + 1);
    }
}

proof fn lemma_lt_from_total(a: Seq<char>, b: Seq<char>, i: nat)
    requires
        i <= a.len(),
        i <= b.len(),
        a.subrange(0, i as int) == b.subrange(0, i as int),
        a != b,
    ensures
        name_lt_from(a, b, i) || name_lt_from(b, a, i),
    decreases a.len() - i,
{
    if i < a.len() && i < b.len() && a[i as int] == b[i as int] {
        assert(a.subrange(0, i + 1 as int) == a.subrange(0, i as int).push(a[i as int]));
        assert(b.subrange(0, i + 1 as int) == b.subrange(0, i as int).push(b[i as int]));
        lemma_lt_from_total(a, b, i + 1);
    } else if i < a.len() && i < b.len() {
        assert((a[i as int] as int) != (b[i as int] as int));
    } else if i == a.len() && i == b.len() {
        assert(a == a.subrange(0, i as int));
        assert(b == b.subrange(0, i as int));
    }
}

proof fn lemma_lt_from_trans(a: Seq<char>, b: Seq<char>, c: Seq<char>, i: nat)
    requires
        name_lt_from(a, b, i),
        name_lt_from(b, c, i),
    ensures
        name_lt_from(a, c, i),
    decreases a.len() - i,
{
    if i < a.len() && i < b.len() && i < c.len() && a[i as int] == b[i as int] && b[i as int]
        == c[i as int] {
        lemma_lt_from_trans(a, b, c, i + 1);
    }
}

/// Two distinct names are ordered one way or the other.
pub proof fn lemma_name_lt_total(a: Seq<char>, b: Seq<char>)
    requires
        a != b,
    ensures
        name_lt(a, b) || name_lt(b, a),
{
    assert(a.subrange(0, 0) == b.subrange(0, 0));
    lemma_lt_from_total(a, b, 0);
}

/// The name order is transitive.
pub proof fn lemma_name_lt_trans(a: Seq<char>, b: Seq<char>, c: Seq<char>)
    requires
        name_lt(a, b),
        name_lt(b, c),
    ensures
        name_lt(a, c),
{
    lemma_lt_from_trans(a, b, c, 0);
}

/// No name is below itself.
pub proof fn lemma_name_lt_irreflexive(a: Seq<char>)
    ensures
        !name_lt(a, a),
{
    lemma_lt_from_irreflexive(a, 0);
}

/// Compares two names in the order of `String`'s `Ord`.
pub fn name_less(a: &str, b: &str) -> (r: bool)
    ensures
        r == name_lt(a@, b@),
{
    let la = a.unicode_len();
    let lb = b.unicode_len();
    let mut i: usize = 0;
    while i < la && i < lb
        invariant
            la == a@.len(),
            lb == b@.len(),
            i <= la,
            i <= lb,
            name_lt(a@, b@) == name_lt_from(a@, b@, i as nat),
        decreases la - i,
    {
        let ca = a.get_char(i);
        let cb = b.get_char(i);
        if (ca as u32) < (cb as u32) {
            return true;
        }
        if ca != cb {
            return false;
        }
        i = i + 1;
    }
    i == la && i < lb
}


/// The entries are strictly ascending by name, hence names are unique.
pub open spec fn sorted_by_name(s: Seq<(Seq<char>, u32)>) -> bool {
    forall|i: int, j: int| 0 <= i < j < s.len() ==> name_lt(#[trigger] s[i].0, #[trigger] s[j].0)
}

pub open spec fn has_name(s: Seq<(Seq<char>, u32)>, n: Seq<char>) -> bool {
    exists|i: int| 0 <= i < s.len() && (#[trigger] s[i]).0 == n
}

/// The sequence after setting `n` to `v`: the entry of that name is replaced,
/// or a new entry goes where the name order puts it.
pub open spec fn set_entry(s: Seq<(Seq<char>, u32)>, n: Seq<char>, v: u32) -> Seq<
    (Seq<char>, u32),
>
    decreases s.len(),
{
    if s.len() == 0 {
        seq![(n, v)]
    } else if s[0].0 == n {
        seq![(n, v)] + s.drop_first()
    } else if name_lt(n, s[0].0) {
        seq![(n, v)] + s
    } else {
        seq![s[0]] + set_entry(s.drop_first(), n, v)
    }
}

proof fn lemma_set_entry_at(s: Seq<(Seq<char>, u32)>, n: Seq<char>, v: u32, k: int)
    requires
        0 <= k <= s.len(),
        forall|i: int| 0 <= i < k ==> name_lt(#[trigger] s[i].0, n),
        k == s.len() || !name_lt(s[k].0, n),
    ensures
        set_entry(s, n, v) == if k < s.len() && s[k].0 == n {
            s.update(k, (n, v))
        } else {
            s.insert(k, (n, v))
        },
    decreases k,
{
    if k == 0 {
        if s.len() > 0 && s[0].0 != n {
            lemma_name_lt_total(n, s[0].0);
        }
        assert(s.insert(0, (n, v)) == seq![(n, v)] + s);
        if s.len() > 0 {
            assert(s.update(0, (n, v)) == seq![(n, v)] + s.drop_first());
        }
    } else {
        let t = s.drop_first();
        lemma_name_lt_irreflexive(n);
        assert(s[0].0 != n);
        assert(name_lt(s[0].0, n));
        if name_lt(n, s[0].0) {
            lemma_name_lt_trans(n, s[0].0, n);
        }
        assert forall|i: int| 0 <= i < k - 1 implies name_lt(#[trigger] t[i].0, n) by {
            assert(t[i] == s[i + 1]);
        }
        lemma_set_entry_at(t, n, v, k - 1);
        if k < s.len() && s[k].0 == n {
            assert(s.update(k, (n, v)) == seq![s[0]] + t.update(k - 1, (n, v)));
        } else {
            assert(s.insert(k, (n, v)) == seq![s[0]] + t.insert(k - 1, (n, v)));
        }
    }
}

/// Little-endian bytes of a 32-bit word.
pub open spec fn le_bytes(v: u32) -> Seq<u8> {
    seq![
        (v & 0xff) as u8,
        ((v >> 8u32) & 0xff) as u8,
        ((v >> 16u32) & 0xff) as u8,
        ((v >> 24u32) & 0xff) as u8,
    ]
}

/// Appends the little-endian bytes of `v` to `out`.
pub fn push_le_bytes(out: &mut Vec<u8>, v: u32)
    ensures
        final(out)@ == old(out)@ + le_bytes(v),
{
    out.push((v & 0xff) as u8);
    out.push(((v >> 8u32) & 0xff) as u8);
    out.push(((v >> 16u32) & 0xff) as u8);
    out.push(((v >> 24u32) & 0xff) as u8);
    assert(final(out)@ =~= old(out)@ + le_bytes(v));
}

/// The values of `s`, one little-endian word each, in the order of `s`.
pub open spec fn values_bytes(s: Seq<(Seq<char>, u32)>) -> Seq<u8>
    decreases s.len(),
{
    if s.len() == 0 {
        Seq::empty()
    } else {
        values_bytes(s.drop_last()) + le_bytes(s.last().1)
    }
}

/// Name of the field that stands in an otherwise empty uniform struct.
pub open spec fn placeholder_name() -> Seq<char> {
    seq!['_', 'd', 'u', 'm', 'm', 'y']
}

/// The fields of the generated uniform struct: the parameters, or a single
/// zero placeholder when there are none (an empty struct is not allowed).
pub open spec fn struct_fields(s: Seq<(Seq<char>, u32)>) -> Seq<(Seq<char>, u32)> {
    if s.len() == 0 {
        seq![(placeholder_name(), 0u32)]
    } else {
        s
    }
}

/// The named custom parameters, as bit patterns of 32-bit floats, kept in
/// name order. The order fixes the field order of the generated uniform
/// struct and the byte layout of its buffer.
pub struct CustomUniforms {
    entries: Vec<(String, u32)>,
}

/// Setting one more parameter would exceed the bound on their number.
#[derive(Debug, PartialEq, Eq, Structural, Clone, Copy)]
pub enum CustomParamError {
    TooManyParams,
}

impl View for CustomUniforms {
    type V = Seq<(Seq<char>, u32)>;

    closed spec fn view(&self) -> Seq<(Seq<char>, u32)> {
        self.entries@.map_values(|e: (String, u32)| (e.0@, e.1))
    }
}

impl CustomUniforms {
    pub open spec fn wf(&self) -> bool {
        sorted_by_name(self@) && self@.len() <= MAX_CUSTOM_PARAMS
    }

    pub fn new() -> (r: CustomUniforms)
        ensures
            r.wf(),
            r@ == Seq::<(Seq<char>, u32)>::empty(),
    {
        let r = CustomUniforms { entries: Vec::new() };
        assert(r@ =~= Seq::<(Seq<char>, u32)>::empty());
        r
    }

    /// Name of the `i`-th field of the uniform struct.
    pub fn field_name(&self, i: usize) -> (r: String)
        requires
            i < struct_fields(self@).len(),
        ensures
            r@ == struct_fields(self@)[i as int].0,
    {
        if self.entries.len() == 0 {
            let r = String::from_str("_dummy");
            proof {
                reveal_strlit("_dummy");
            }
            assert(r@ =~= placeholder_name());
            r
        } else {
            self.entries[i].0.clone()
        }
    }

    /// Number of fields of the uniform struct.
    pub fn field_count(&self) -> (r: usize)
        ensures
            r == struct_fields(self@).len(),
    {
        if self.entries.len() == 0 {
            1
        } else {
            self.entries.len()
        }
    }

    /// The contents of the custom uniform buffer: the field values in field order.
    pub fn uniform_bytes(&self) -> (r: Vec<u8>)
        ensures
            r@ == values_bytes(struct_fields(self@)),
    {
        let mut out: Vec<u8> = Vec::new();
        if self.entries.len() == 0 {
            push_le_bytes(&mut out, 0);
            let ghost f = struct_fields(self@);
            assert(f.drop_last() =~= Seq::<(Seq<char>, u32)>::empty());
            assert(values_bytes(f.drop_last()) == Seq::<u8>::empty());
            assert(out@ =~= values_bytes(f));
            return out;
        }
        let ghost s = self@;
        let n = self.entries.len();
        let mut i: usize = 0;
        while i < n
            invariant
                n == s.len(),
                s == self@,
                i <= n,
                out@ == values_bytes(s.subrange(0, i as int)),
            decreases n - i,
        {
            push_le_bytes(&mut out, self.entries[i].1);
            assert(s.subrange(0, i + 1 as int).drop_last() =~= s.subrange(0, i as int));
            i = i + 1;
        }
        assert(s.subrange(0, n as int) =~= s);
        out
    }

    pub fn len(&self) -> (r: usize)
        ensures
            r == self@.len(),
    {
        self.entries.len()
    }

    /// Sets the parameter `name` to the float whose bits are `value_bits`.
    /// A new name beyond the bound on the number of parameters is refused.
    pub fn set(&mut self, name: &str, value_bits: u32) -> (r: Result<(), CustomParamError>)
        requires
            old(self).wf(),
        ensures
            final(self).wf(),
            r is Err <==> (!has_name(old(self)@, name@) && old(self)@.len()
                >= MAX_CUSTOM_PARAMS),
            r is Ok ==> final(self)@ == set_entry(old(self)@, name@, value_bits),
            r is Err ==> final(self)@ == old(self)@,
    {
        let ghost s = self@;
        let n = self.entries.len();
        let mut k: usize = 0;
        while k < n && name_less(self.entries[k].0.as_str(), name)
            invariant
                n == self.entries.len(),
                s == self@,
                k <= n,
                forall|i: int| 0 <= i < k ==> name_lt(#[trigger] s[i].0, name@),
            decreases n - k,
        {
            k = k + 1;
        }
        assert(k == n || !name_lt(s[k as int].0, name@));
        let found = k < n && !name_less(name, self.entries[k].0.as_str());
        proof {
            if found && s[k as int].0 != name@ {
                lemma_name_lt_total(s[k as int].0, name@);
            }
            if !found && has_name(s, name@) {
                let j = choose|j: int| 0 <= j < s.len() && (#[trigger] s[j]).0 == name@;
                lemma_name_lt_irreflexive(name@);
                if j > k {
                    assert(name_lt(s[k as int].0, s[j].0));
                }
            }
        }
        if !found && n >= MAX_CUSTOM_PARAMS {
            return Err(CustomParamError::TooManyParams);
        }
        proof {
            lemma_set_entry_at(s, name@, value_bits, k as int);
        }
        if found {
            self.entries.set(k, (String::from_str(name), value_bits));
            assert(self@ =~= s.update(k as int, (name@, value_bits)));
        } else {
            self.entries.insert(k, (String::from_str(name), value_bits));
            assert(self@ =~= s.insert(k as int, (name@, value_bits)));
            assert forall|i: int, j: int| 0 <= i < j < self@.len() implies name_lt(
                #[trigger] self@[i].0,
                #[trigger] self@[j].0,
            ) by {
                if j < k {
                    assert(name_lt(s[i].0, s[j].0));
                } else if i < k && j == k {
                } else if i < k && j > k {
                    assert(name_lt(s[i].0, s[j - 1].0));
                } else if i == k && j > k {
                    assert(s[j - 1].0 != name@);
                    if k < j - 1 {
                        assert(name_lt(s[k as int].0, s[j - 1].0));
                        if name_lt(s[j - 1].0, name@) {
                            lemma_name_lt_trans(s[k as int].0, s[j - 1].0, name@);
                        }
                    } else {
                        assert(s[k as int].0 != name@);
                    }
                    lemma_name_lt_total(s[j - 1].0, name@);
                } else {
                    assert(name_lt(s[i - 1].0, s[j - 1].0));
                }
            }
        }
        Ok(())
    }
}

} // verus!
