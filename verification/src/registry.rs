//! An ordered map from identifiers to values: each identifier at most once, in
//! the byte order of the text.
use vstd::prelude::*;
use vstd::string::*;

verus! {

/// Strict lexicographic order of byte sequences.
pub open spec fn bytes_below(a: Seq<u8>, b: Seq<u8>) -> bool
    decreases a.len(),
{
    if a.len() == 0 || b.len() == 0 {
        a.len() < b.len()
    } else if a.first() == b.first() {
        bytes_below(a.drop_first(), b.drop_first())
    } else {
        a.first() < b.first()
    }
}

/// Strict order of text: by the bytes of its UTF-8 encoding.
pub open spec fn text_below(a: Seq<char>, b: Seq<char>) -> bool {
    bytes_below(vstd::utf8::encode_utf8(a), vstd::utf8::encode_utf8(b))
}

/// Identifiers in strictly rising order.
pub open spec fn rising(ids: Seq<Seq<char>>) -> bool {
    forall|i: int, j: int| 0 <= i < j < ids.len() ==> text_below(ids[i], ids[j])
}

proof fn lemma_bytes_order(a: Seq<u8>, b: Seq<u8>, c: Seq<u8>)
    ensures
        !bytes_below(a, a),
        a == b || bytes_below(a, b) || bytes_below(b, a),
        bytes_below(a, b) && bytes_below(b, c) ==> bytes_below(a, c),
    decreases a.len(),
{
    if a.len() > 0 {
        lemma_bytes_order(
            a.drop_first(),
            if b.len() > 0 {
                b.drop_first()
            } else {
                b
            },
            if c.len() > 0 {
                c.drop_first()
            } else {
                c
            },
        );
        if b.len() > 0 && a.first() == b.first() && a.drop_first() == b.drop_first() {
            assert(a =~= seq![a.first()] + a.drop_first());
            assert(b =~= seq![b.first()] + b.drop_first());
        }
    } else if b.len() == 0 {
        assert(a =~= b);
    }
}

/// The order of text is a strict total order: nothing is below itself, of two
/// different texts one is below the other, and it is transitive.
pub proof fn law_text_order(a: Seq<char>, b: Seq<char>, c: Seq<char>)
    ensures
        !text_below(a, a),
        a != b ==> text_below(a, b) || text_below(b, a),
        text_below(a, b) && text_below(b, c) ==> text_below(a, c),
{
    broadcast use vstd::utf8::encode_utf8_decode_utf8;

    lemma_bytes_order(
        vstd::utf8::encode_utf8(a),
        vstd::utf8::encode_utf8(b),
        vstd::utf8::encode_utf8(c),
    );
    assert(vstd::utf8::decode_utf8(vstd::utf8::encode_utf8(a)) == a);
    assert(vstd::utf8::decode_utf8(vstd::utf8::encode_utf8(b)) == b);
}

/// Whether `a` comes before `b` in the order of text.
pub fn text_is_below(a: &str, b: &str) -> (r: bool)
    ensures
        r == text_below(a@, b@),
{
    let left = a.as_bytes();
    let right = b.as_bytes();
    let mut i: usize = 0;
    assert(left@.skip(0) =~= left@);
    assert(right@.skip(0) =~= right@);
    while i < left.len() && i < right.len() && left[i] == right[i]
        invariant
            i <= left@.len(),
            i <= right@.len(),
            bytes_below(left@, right@) == bytes_below(left@.skip(i as int), right@.skip(i as int)),
        decreases left@.len() - i,
    {
        assert(left@.skip(i as int).drop_first() =~= left@.skip(i + 1));
        assert(right@.skip(i as int).drop_first() =~= right@.skip(i + 1));
        i = i + 1;
    }
    if i < left.len() && i < right.len() {
        left[i] < right[i]
    } else {
        i < right.len()
    }
}

/// A map from identifiers to values, kept in the order of the identifiers.
pub struct Registry<V> {
    keys: Vec<String>,
    values: Vec<V>,
}

impl<V> Registry<V> {
    /// The identifiers, in order.
    pub closed spec fn ids(&self) -> Seq<Seq<char>> {
        self.keys@.map_values(|key: String| key@)
    }

    /// The values, in the order of their identifiers.
    pub closed spec fn values(&self) -> Seq<V> {
        self.values@
    }

    /// One value per identifier, and the identifiers in strictly rising order.
    pub open spec fn well_formed(&self) -> bool {
        &&& self.ids().len() == self.values().len()
        &&& rising(self.ids())
    }

    /// The map this registry stands for.
    pub open spec fn map(&self) -> Map<Seq<char>, V> {
        Map::new(
            |id: Seq<char>| self.ids().contains(id),
            |id: Seq<char>| self.values()[self.ids().index_of(id)],
        )
    }

    /// A registry without entries.
    pub fn new() -> (r: Self)
        ensures
            r.well_formed(),
            r.map() == Map::<Seq<char>, V>::empty(),
            r.ids().len() == 0,
    {
        let r = Registry { keys: Vec::new(), values: Vec::new() };
        assert(r.map() =~= Map::<Seq<char>, V>::empty());
        r
    }

    /// The number of entries.
    pub fn len(&self) -> (r: usize)
        requires
            self.well_formed(),
        ensures
            r == self.ids().len(),
    {
        self.keys.len()
    }

    /// The identifier at position `i` of the order.
    pub fn id_at(&self, i: usize) -> (r: &str)
        requires
            self.well_formed(),
            i < self.ids().len(),
        ensures
            r@ == self.ids()[i as int],
    {
        self.keys[i].as_str()
    }

    /// The value at position `i` of the order.
    pub fn value_at(&self, i: usize) -> (r: &V)
        requires
            self.well_formed(),
            i < self.ids().len(),
        ensures
            *r == self.values()[i as int],
    {
        &self.values[i]
    }

    /// The position of `id`: where it stands, or where it would go.
    fn position(&self, id: &str) -> (r: (usize, bool))
        requires
            self.well_formed(),
        ensures
            r.0 <= self.ids().len(),
            forall|j: int| 0 <= j < r.0 ==> text_below(#[trigger] self.ids()[j], id@),
            r.1 ==> r.0 < self.ids().len() && self.ids()[r.0 as int] == id@,
            !r.1 ==> forall|j: int|
                r.0 <= j < self.ids().len() ==> text_below(id@, #[trigger] self.ids()[j]),
    {
        let mut i: usize = 0;
        while i < self.keys.len() && text_is_below(self.keys[i].as_str(), id)
            invariant
                self.well_formed(),
                i <= self.keys@.len(),
                self.ids().len() == self.keys@.len(),
                forall|j: int| 0 <= j < i ==> text_below(#[trigger] self.ids()[j], id@),
            decreases self.keys@.len() - i,
        {
            assert(self.ids()[i as int] == self.keys@[i as int]@);
            i = i + 1;
        }
        if i < self.keys.len() {
            assert(self.ids()[i as int] == self.keys@[i as int]@);
            let above = text_is_below(id, self.keys[i].as_str());
            proof {
                law_text_order(self.ids()[i as int], id@, id@);
                if above {
                    assert forall|j: int| i <= j < self.ids().len() implies text_below(
                        id@,
                        #[trigger] self.ids()[j],
                    ) by {
                        law_text_order(id@, self.ids()[i as int], self.ids()[j]);
                    }
                }
            }
            (i, !above)
        } else {
            (i, false)
        }
    }

    proof fn lemma_at(&self, i: int)
        requires
            self.well_formed(),
            0 <= i < self.ids().len(),
        ensures
            self.map().contains_key(self.ids()[i]),
            self.map()[self.ids()[i]] == self.values()[i],
    {
        let id = self.ids()[i];
        assert(self.ids().contains(id));
        let k = self.ids().index_of(id);
        assert(self.ids()[k] == id);
        law_text_order(id, id, id);
    }

    proof fn lemma_absent(&self, id: Seq<char>, at: int)
        requires
            self.well_formed(),
            0 <= at <= self.ids().len(),
            forall|j: int| 0 <= j < at ==> text_below(#[trigger] self.ids()[j], id),
            forall|j: int|
                at <= j < self.ids().len() ==> text_below(id, #[trigger] self.ids()[j]),
        ensures
            !self.map().contains_key(id),
    {
        law_text_order(id, id, id);
    }

    /// The value registered under `id`.
    pub fn get(&self, id: &str) -> (r: Option<&V>)
        requires
            self.well_formed(),
        ensures
            match r {
                Some(value) => self.map().contains_key(id@) && *value == self.map()[id@],
                None => !self.map().contains_key(id@),
            },
    {
        let (i, found) = self.position(id);
        if found {
            proof {
                self.lemma_at(i as int);
            }
            Some(&self.values[i])
        } else {
            proof {
                self.lemma_absent(id@, i as int);
            }
            None
        }
    }

    /// Registers `value` under `id`, in place of what was registered there.
    pub fn insert(&mut self, id: String, value: V)
        requires
            old(self).well_formed(),
        ensures
            final(self).well_formed(),
            final(self).map() == old(self).map().insert(id@, value),
    {
        let (i, found) = self.position(id.as_str());
        let ghost before = *self;
        if found {
            self.values.set(i, value);
            proof {
                assert(self.ids() =~= before.ids());
                assert forall|k: Seq<char>| #[trigger] self.map().contains_key(k) implies self.map()[k]
                    == before.map().insert(id@, value)[k] by {
                    let j = self.ids().index_of(k);
                    self.lemma_at(j);
                    before.lemma_at(j);
                    law_text_order(k, id@, id@);
                }
                before.lemma_at(i as int);
                assert(self.map() =~= before.map().insert(id@, value));
            }
        } else {
            let ghost text = id@;
            self.keys.insert(i, id);
            self.values.insert(i, value);
            proof {
                let at = i as int;
                assert(self.ids() =~= before.ids().insert(at, text));
                assert(self.values() =~= before.values().insert(at, value));
                assert(rising(self.ids()));
                before.lemma_absent(text, at);
                assert forall|k: Seq<char>| #[trigger]
                    self.map().contains_key(k) <==> before.map().insert(
                    text,
                    value,
                ).contains_key(k) by {
                    if before.map().contains_key(k) {
                        let j = before.ids().index_of(k);
                        self.lemma_at(if j < at {
                            j
                        } else {
                            j + 1
                        });
                    }
                    if k == text {
                        self.lemma_at(at);
                    }
                }
                assert forall|k: Seq<char>| #[trigger] self.map().contains_key(k) implies self.map()[k]
                    == before.map().insert(text, value)[k] by {
                    let j = self.ids().index_of(k);
                    self.lemma_at(j);
                    if j < at {
                        before.lemma_at(j);
                    } else if j > at {
                        before.lemma_at(j - 1);
                    }
                }
                assert(self.map() =~= before.map().insert(text, value));
            }
        }
    }
}

/// The identifiers of a registry are exactly the keys of its map, each once, and
/// its values are those that the map holds for them.
pub proof fn law_registry_is_its_map<V>(registry: Registry<V>)
    requires
        registry.well_formed(),
    ensures
        registry.ids().to_set() == registry.map().dom(),
        registry.ids().no_duplicates(),
        registry.map().dom().finite(),
        registry.ids().len() == registry.map().dom().len(),
        forall|i: int|
            0 <= i < registry.ids().len() ==> registry.map()[#[trigger] registry.ids()[i]]
                == registry.values()[i],
{
    let ids = registry.ids();
    assert forall|i: int, j: int| 0 <= i < ids.len() && 0 <= j < ids.len() && i != j implies ids[i]
        != ids[j] by {
        law_text_order(ids[i], ids[i], ids[i]);
    }
    assert(ids.to_set() =~= registry.map().dom());
    ids.unique_seq_to_set();
    assert forall|i: int| 0 <= i < ids.len() implies registry.map()[#[trigger] ids[i]]
        == registry.values()[i] by {
        registry.lemma_at(i);
    }
}

proof fn lemma_bytes_at(a: Seq<u8>, b: Seq<u8>, k: int)
    requires
        0 <= k <= a.len(),
        k <= b.len(),
        a.take(k) == b.take(k),
    ensures
        bytes_below(a, b) == bytes_below(a.skip(k), b.skip(k)),
    decreases k,
{
    if k == 0 {
        assert(a.skip(0) =~= a);
        assert(b.skip(0) =~= b);
    } else {
        assert(a.take(k)[0] == a[0]);
        assert(b.take(k)[0] == b[0]);
        assert(bytes_below(a, b) == bytes_below(a.drop_first(), b.drop_first()));
        assert(a.drop_first().take(k - 1) =~= a.take(k).drop_first());
        assert(b.drop_first().take(k - 1) =~= b.take(k).drop_first());
        lemma_bytes_at(a.drop_first(), b.drop_first(), k - 1);
        assert(a.drop_first().skip(k - 1) =~= a.skip(k));
        assert(b.drop_first().skip(k - 1) =~= b.skip(k));
    }
}

/// Whether `a` and `b` are alike up to position `k`, where `a` ends before `b`
/// does or has the smaller byte.
pub open spec fn smaller_at(a: Seq<u8>, b: Seq<u8>, k: int) -> bool {
    &&& 0 <= k <= a.len()
    &&& k < b.len()
    &&& forall|i: int| 0 <= i < k ==> #[trigger] a[i] == b[i]
    &&& k < a.len() ==> a[k] < b[k]
}

/// Of two byte sequences the one that has the smaller byte at the first
/// difference is below the other, and so is one that ends there.
pub proof fn law_bytes_decide_at_the_first_difference(a: Seq<u8>, b: Seq<u8>, k: int)
    requires
        smaller_at(a, b, k),
    ensures
        bytes_below(a, b),
        !bytes_below(b, a),
{
    assert(a.take(k) =~= b.take(k));
    lemma_bytes_at(a, b, k);
    lemma_bytes_at(b, a, k);
}

proof fn lemma_first_difference(a: Seq<u8>, b: Seq<u8>) -> (k: int)
    requires
        bytes_below(a, b),
    ensures
        smaller_at(a, b, k),
    decreases a.len(),
{
    if a.len() == 0 || a.first() != b.first() {
        0
    } else {
        let k = lemma_first_difference(a.drop_first(), b.drop_first());
        assert forall|i: int| 0 <= i < k + 1 implies #[trigger] a[i] == b[i] by {
            if i > 0 {
                assert(a.drop_first()[i - 1] == b.drop_first()[i - 1]);
            }
        }
        k + 1
    }
}

/// Whether the UTF-8 bytes of `a` are smaller than those of `b` at the first
/// difference, or end there.
pub open spec fn comes_first(a: Seq<char>, b: Seq<char>) -> bool {
    exists|k: int| #[trigger]
        smaller_at(vstd::utf8::encode_utf8(a), vstd::utf8::encode_utf8(b), k)
}

/// One text is below another exactly where its UTF-8 bytes are smaller at the
/// first difference, or end there.
pub proof fn law_text_order_is_that_of_its_bytes(a: Seq<char>, b: Seq<char>)
    ensures
        text_below(a, b) <==> comes_first(a, b),
{
    let left = vstd::utf8::encode_utf8(a);
    let right = vstd::utf8::encode_utf8(b);
    if text_below(a, b) {
        let k = lemma_first_difference(left, right);
        assert(smaller_at(left, right, k));
    }
    if comes_first(a, b) {
        let k = choose|k: int| #[trigger] smaller_at(left, right, k);
        law_bytes_decide_at_the_first_difference(left, right, k);
    }
}

proof fn lemma_scalars(c: u32, d: u32) -> (k: int)
    requires
        vstd::utf8::is_scalar(c),
        vstd::utf8::is_scalar(d),
        c < d,
    ensures
        smaller_at(vstd::utf8::encode_scalar(c), vstd::utf8::encode_scalar(d), k),
        k < vstd::utf8::encode_scalar(c).len(),
{
    let x = vstd::utf8::encode_scalar(c);
    let y = vstd::utf8::encode_scalar(d);
    assert(c <= 0x7f ==> (c & 0x7f) as u8 == c) by (bit_vector);
    assert(d <= 0x7f ==> (d & 0x7f) as u8 == d) by (bit_vector);
    assert(0xc0 <= 0xc0u8 | ((c >> 6) & 0x1f) as u8 <= 0xdf) by (bit_vector);
    assert(0xc0 <= 0xc0u8 | ((d >> 6) & 0x1f) as u8 <= 0xdf) by (bit_vector);
    assert(0xe0 <= 0xe0u8 | ((c >> 12) & 0xf) as u8 <= 0xef) by (bit_vector);
    assert(0xe0 <= 0xe0u8 | ((d >> 12) & 0xf) as u8 <= 0xef) by (bit_vector);
    assert(0xf0 <= 0xf0u8 | ((d >> 18) & 0x7) as u8) by (bit_vector);
    if d <= 0x7ff && c >= 0x80 {
        assert(0x80 <= c && c < d && d <= 0x7ff ==> {
            let c1 = 0xc0u8 | ((c >> 6) & 0x1f) as u8;
            let d1 = 0xc0u8 | ((d >> 6) & 0x1f) as u8;
            let c2 = 0x80u8 | (c & 0x3f) as u8;
            let d2 = 0x80u8 | (d & 0x3f) as u8;
            c1 < d1 || (c1 == d1 && c2 < d2)
        }) by (bit_vector);
    } else if d <= 0xffff && c >= 0x800 {
        assert(0x800 <= c && c < d && d <= 0xffff ==> {
            let c1 = 0xe0u8 | ((c >> 12) & 0xf) as u8;
            let d1 = 0xe0u8 | ((d >> 12) & 0xf) as u8;
            let c2 = 0x80u8 | ((c >> 6) & 0x3f) as u8;
            let d2 = 0x80u8 | ((d >> 6) & 0x3f) as u8;
            let c3 = 0x80u8 | (c & 0x3f) as u8;
            let d3 = 0x80u8 | (d & 0x3f) as u8;
            c1 < d1 || (c1 == d1 && (c2 < d2 || (c2 == d2 && c3 < d3)))
        }) by (bit_vector);
    } else if c >= 0x10000 {
        assert(0x10000 <= c && c < d && d <= 0x10ffff ==> {
            let c1 = 0xf0u8 | ((c >> 18) & 0x7) as u8;
            let d1 = 0xf0u8 | ((d >> 18) & 0x7) as u8;
            let c2 = 0x80u8 | ((c >> 12) & 0x3f) as u8;
            let d2 = 0x80u8 | ((d >> 12) & 0x3f) as u8;
            let c3 = 0x80u8 | ((c >> 6) & 0x3f) as u8;
            let d3 = 0x80u8 | ((d >> 6) & 0x3f) as u8;
            let c4 = 0x80u8 | (c & 0x3f) as u8;
            let d4 = 0x80u8 | (d & 0x3f) as u8;
            c1 < d1 || (c1 == d1 && (c2 < d2 || (c2 == d2 && (c3 < d3 || (c3 == d3 && c4 < d4)))))
        }) by (bit_vector);
    }
    if x[0] < y[0] {
        0
    } else if x[1] < y[1] {
        1
    } else if x[2] < y[2] {
        2
    } else {
        3
    }
}

proof fn lemma_encode_concat(a: Seq<char>, b: Seq<char>)
    ensures
        vstd::utf8::encode_utf8(a + b) == vstd::utf8::encode_utf8(a) + vstd::utf8::encode_utf8(b),
    decreases a.len(),
{
    if a.len() == 0 {
        assert(a + b =~= b);
        assert(vstd::utf8::encode_utf8(a) + vstd::utf8::encode_utf8(b)
            =~= vstd::utf8::encode_utf8(b));
    } else {
        assert((a + b).drop_first() =~= a.drop_first() + b);
        lemma_encode_concat(a.drop_first(), b);
        assert(vstd::utf8::encode_utf8(a + b) =~= vstd::utf8::encode_utf8(a)
            + vstd::utf8::encode_utf8(b));
    }
}

/// The order of text is the dictionary order of its characters: of two texts
/// that go on differently after the same beginning, the one that goes on with
/// the smaller character comes first, and a text comes before its continuations.
pub proof fn law_text_order_is_that_of_a_dictionary(
    beginning: Seq<char>,
    c: char,
    d: char,
    left: Seq<char>,
    right: Seq<char>,
)
    requires
        c < d,
    ensures
        text_below(beginning + seq![c] + left, beginning + seq![d] + right),
        !text_below(beginning + seq![d] + right, beginning + seq![c] + left),
        text_below(beginning, beginning + seq![d] + right),
        !text_below(beginning + seq![d] + right, beginning),
{
    let a = beginning + seq![c] + left;
    let b = beginning + seq![d] + right;
    let x = vstd::utf8::encode_utf8(beginning);
    assert(a =~= beginning + (seq![c] + left));
    assert(b =~= beginning + (seq![d] + right));
    lemma_encode_concat(beginning, seq![c] + left);
    lemma_encode_concat(beginning, seq![d] + right);
    assert((seq![c] + left).drop_first() =~= left);
    assert((seq![d] + right).drop_first() =~= right);
    vstd::utf8::char_is_scalar(c);
    vstd::utf8::char_is_scalar(d);
    let k = lemma_scalars(c as u32, d as u32);
    let p = vstd::utf8::encode_utf8(a);
    let q = vstd::utf8::encode_utf8(b);
    let m = x.len() + k;
    assert forall|i: int| 0 <= i < m implies #[trigger] p[i] == q[i] by {
        if i >= x.len() {
            assert(vstd::utf8::encode_scalar(c as u32)[i - x.len()]
                == vstd::utf8::encode_scalar(d as u32)[i - x.len()]);
        }
    }
    assert(smaller_at(p, q, m as int));
    law_bytes_decide_at_the_first_difference(p, q, m as int);
    assert(smaller_at(x, q, x.len() as int));
    law_bytes_decide_at_the_first_difference(x, q, x.len() as int);
}

/// Rising identifiers are in the order of text, each below all that follow.
pub proof fn law_rising_identifiers(ids: Seq<Seq<char>>)
    ensures
        rising(ids) <==> forall|i: int, j: int|
            0 <= i < j < ids.len() ==> comes_first(#[trigger] ids[i], #[trigger] ids[j]),
{
    assert forall|i: int, j: int| 0 <= i < j < ids.len() implies text_below(
        #[trigger] ids[i],
        #[trigger] ids[j],
    ) == comes_first(ids[i], ids[j]) by {
        law_text_order_is_that_of_its_bytes(ids[i], ids[j]);
    }
}

/// Comparing two texts tells whether the bytes of the first are smaller at the
/// first difference, or end there; of two different texts exactly one comes
/// before the other.
pub proof fn law_comparison_of_text(a: &str, b: &str, first: bool, second: bool)
    requires
        call_ensures(text_is_below, (a, b), first),
        call_ensures(text_is_below, (b, a), second),
    ensures
        first <==> comes_first(a@, b@),
        a@ != b@ ==> first != second,
        a@ == b@ ==> !first && !second,
{
    law_text_order_is_that_of_its_bytes(a@, b@);
    law_text_order(a@, b@, a@);
}

/// What is inserted is found under its identifier, and all else as it was
/// before.
pub proof fn law_inserted_value_is_found<V>(
    registry: &mut Registry<V>,
    id: String,
    value: V,
    other: Seq<char>,
)
    requires
        old(registry).well_formed(),
        call_ensures(Registry::<V>::insert, (registry, id, value), ()),
        other != id@,
    ensures
        final(registry).well_formed(),
        final(registry).map().contains_key(id@),
        final(registry).map()[id@] == value,
        final(registry).map().contains_key(other) == old(registry).map().contains_key(other),
        old(registry).map().contains_key(other) ==> final(registry).map()[other] == old(
            registry,
        ).map()[other],
        final(registry).ids().len() == old(registry).ids().len() + if old(
            registry,
        ).map().contains_key(id@) {
            0int
        } else {
            1int
        },
{
    law_registry_is_its_map(*old(registry));
    law_registry_is_its_map(*final(registry));
    assert(final(registry).map().dom() =~= old(registry).map().dom().insert(id@));
}

/// A look-up finds what stands beside the identifier, and nothing where the
/// identifier is not listed; a new registry lists nothing.
pub proof fn law_look_up<V>(registry: Registry<V>, id: &str, found: Option<&V>, empty: Registry<V>)
    requires
        registry.well_formed(),
    ensures
        call_ensures(Registry::<V>::get, (&registry, id), found) ==> match found {
            Some(value) => exists|i: int|
                0 <= i < registry.ids().len() && #[trigger] registry.ids()[i] == id@
                    && registry.values()[i] == *value,
            None => !registry.ids().contains(id@),
        },
        call_ensures(Registry::<V>::new, (), empty) ==> empty.well_formed() && empty.ids().len()
            == 0,
{
    law_registry_is_its_map(registry);
    if call_ensures(Registry::<V>::get, (&registry, id), found) && found is Some {
        assert(registry.ids().to_set().contains(id@));
        let i = registry.ids().index_of(id@);
        assert(registry.ids()[i] == id@);
    }
}

} // verus!
