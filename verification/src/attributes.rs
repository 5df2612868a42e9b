use vstd::prelude::*;

verus! {

use vstd::pervasive::VecAdditionalExecFns;
use vstd::string::StringExecFns;

/// Allows you to convert items into attributes.
///
/// Every concrete attribute type boils down to one canonical
/// (name, value) pair of strings; `attr_pair` is that pair at the
/// specification level and `into_attribute` produces it at run time.
pub trait IntoAttribute: Sized {
    /// The canonical (name, value) pair this attribute stands for.
    spec fn attr_pair(self) -> (Seq<char>, Seq<char>);

    /// Convert the current item into an attribute.
    fn into_attribute(self) -> (r: (String, String))
        ensures
            r.0@ == self.attr_pair().0,
            r.1@ == self.attr_pair().1,
    ;
}

/// Whether converting `C` into `T` through `Into` has a known specification.
///
/// It holds for every conversion this crate defines; contracts that accept
/// `C: Into<T>` arguments are stated under this premise.
pub open spec fn obeys_into<C: Into<T>, T>() -> bool {
    <C as vstd::std_specs::convert::IntoSpec<T>>::obeys_into_spec()
}

/// The value that converting `c` into `T` through `Into` produces.
pub open spec fn into_spec_of<C: Into<T>, T>(c: C) -> T {
    <C as vstd::std_specs::convert::IntoSpec<T>>::into_spec(c)
}

/// Convert every element of `items` into `T`, preserving order.
pub fn convert_all<C: Into<T>, T>(items: Vec<C>) -> (r: Vec<T>)
    ensures
        obeys_into::<C, T>() ==> r@ == items@.map_values(|c: C| into_spec_of::<C, T>(c)),
{
    let ghost all = items@;
    let mut rest = items;
    let mut out: Vec<T> = Vec::new();
    while rest.len() > 0
        invariant
            rest@.len() <= all.len(),
            rest@ == all.subrange(all.len() - rest@.len(), all.len() as int),
            obeys_into::<C, T>() ==> out@ == all.take(all.len() - rest@.len()).map_values(
                (|c: C| into_spec_of::<C, T>(c)),
            ),
        decreases rest@.len(),
    {
        let ghost i = all.len() - rest@.len();
        let ghost prev = rest@;
        let c = rest.remove(0);
        proof {
            assert(c == prev[0]);
            assert(c == all[i]);
            assert(rest@ =~= all.subrange(all.len() - rest@.len(), all.len() as int));
        }
        let t: T = c.into();
        out.push(t);
        proof {
            if obeys_into::<C, T>() {
                assert(all.take(i + 1).map_values((|c: C| into_spec_of::<C, T>(c))) =~= all.take(
                    i,
                ).map_values((|c: C| into_spec_of::<C, T>(c))).push(into_spec_of::<C, T>(all[i])));
            }
        }
    }
    proof {
        assert(all.take(all.len() as int) =~= all);
    }
    out
}

/// The attribute collection of a tag: a map from attribute names to values
/// that remembers in which order names were first set.
///
/// Inserting an already-present name overwrites its value in place; a fresh
/// name is appended at the end.
#[derive(Debug)]
pub struct AttrMap {
    pairs: Vec<(String, String)>,
}

impl View for AttrMap {
    type V = Seq<(Seq<char>, Seq<char>)>;

    closed spec fn view(&self) -> Seq<(Seq<char>, Seq<char>)> {
        self.pairs@.map_values(|p: (String, String)| (p.0@, p.1@))
    }
}

impl Clone for AttrMap {
    /// A copy holding the same attribute pairs in the same order.
    fn clone(&self) -> (res: Self)
        ensures
            res@ == self@,
    {
        let mut pairs: Vec<(String, String)> = Vec::new();
        let mut i: usize = 0;
        while i < self.pairs.len()
            invariant
                0 <= i <= self.pairs.len(),
                pairs@ == self.pairs@.take(i as int),
            decreases self.pairs.len() - i,
        {
            let key = self.pairs[i].0.clone();
            let value = self.pairs[i].1.clone();
            pairs.push((key, value));
            proof {
                assert((key, value) == self.pairs@[i as int]);
                assert(pairs@ =~= self.pairs@.take(i + 1));
            }
            i = i + 1;
        }
        proof {
            assert(self.pairs@.take(self.pairs.len() as int) =~= self.pairs@);
        }
        let res = AttrMap { pairs };
        proof {
            assert(res@ =~= self@);
        }
        res
    }
}

/// `m` with `value` stored under `key`: the first pair named `key` is
/// replaced in place, or the new pair is appended if the name is fresh.
pub open spec fn insert_attr(
    m: Seq<(Seq<char>, Seq<char>)>,
    key: Seq<char>,
    value: Seq<char>,
) -> Seq<(Seq<char>, Seq<char>)>
    decreases m.len(),
{
    if m.len() == 0 {
        seq![(key, value)]
    } else if m[0].0 == key {
        seq![(key, value)] + m.drop_first()
    } else {
        seq![m[0]] + insert_attr(m.drop_first(), key, value)
    }
}

/// The value stored under `key` in `m`, if any.
pub open spec fn get_attr(m: Seq<(Seq<char>, Seq<char>)>, key: Seq<char>) -> Option<Seq<char>>
    decreases m.len(),
{
    if m.len() == 0 {
        None
    } else if m[0].0 == key {
        Some(m[0].1)
    } else {
        get_attr(m.drop_first(), key)
    }
}

/// The markup text of an attribute list: ` name="value"` for each pair, in
/// the order of the list.  Values are emitted verbatim; the renderer performs
/// no additional escaping.
pub open spec fn render_attrs(m: Seq<(Seq<char>, Seq<char>)>) -> Seq<char>
    decreases m.len(),
{
    if m.len() == 0 {
        Seq::empty()
    } else {
        render_attrs(m.drop_last()) + " "@ + m.last().0 + "=\""@ + m.last().1 + "\""@
    }
}

proof fn lemma_insert_attr_found(
    m: Seq<(Seq<char>, Seq<char>)>,
    key: Seq<char>,
    value: Seq<char>,
    i: int,
)
    requires
        0 <= i < m.len(),
        forall|j: int| 0 <= j < i ==> m[j].0 != key,
        m[i].0 == key,
    ensures
        insert_attr(m, key, value) == m.update(i, (key, value)),
    decreases i,
{
    if i == 0 {
        assert(insert_attr(m, key, value) =~= m.update(0, (key, value)));
    } else {
        lemma_insert_attr_found(m.drop_first(), key, value, i - 1);
        assert(insert_attr(m, key, value) =~= m.update(i, (key, value)));
    }
}

proof fn lemma_insert_attr_fresh(m: Seq<(Seq<char>, Seq<char>)>, key: Seq<char>, value: Seq<char>)
    requires
        forall|j: int| 0 <= j < m.len() ==> m[j].0 != key,
    ensures
        insert_attr(m, key, value) == m.push((key, value)),
    decreases m.len(),
{
    if m.len() == 0 {
        assert(insert_attr(m, key, value) =~= m.push((key, value)));
    } else {
        lemma_insert_attr_fresh(m.drop_first(), key, value);
        assert(insert_attr(m, key, value) =~= m.push((key, value)));
    }
}

proof fn lemma_get_attr_found(m: Seq<(Seq<char>, Seq<char>)>, key: Seq<char>, i: int)
    requires
        0 <= i < m.len(),
        forall|j: int| 0 <= j < i ==> m[j].0 != key,
        m[i].0 == key,
    ensures
        get_attr(m, key) == Some(m[i].1),
    decreases i,
{
    if i > 0 {
        lemma_get_attr_found(m.drop_first(), key, i - 1);
    }
}

proof fn lemma_get_attr_fresh(m: Seq<(Seq<char>, Seq<char>)>, key: Seq<char>)
    requires
        forall|j: int| 0 <= j < m.len() ==> m[j].0 != key,
    ensures
        get_attr(m, key) is None,
    decreases m.len(),
{
    if m.len() > 0 {
        lemma_get_attr_fresh(m.drop_first(), key);
    }
}

/// Attribute round-trip: reading an attribute right after setting it yields
/// the value that was set.  Every tag's `attribute` and `raw_attribute`
/// methods update the attribute list by `insert_attr`, and `read_attribute`
/// looks it up by `get_attr`, so this holds of every tag.
pub proof fn lemma_read_back_attribute(
    m: Seq<(Seq<char>, Seq<char>)>,
    key: Seq<char>,
    value: Seq<char>,
)
    ensures
        get_attr(insert_attr(m, key, value), key) == Some(value),
    decreases m.len(),
{
    if m.len() != 0 && m[0].0 != key {
        lemma_read_back_attribute(m.drop_first(), key, value);
        assert(insert_attr(m, key, value).drop_first() =~= insert_attr(
            m.drop_first(),
            key,
            value,
        ));
    }
}

/// Setting one attribute leaves every other attribute name unchanged.
pub proof fn lemma_attribute_frame(
    m: Seq<(Seq<char>, Seq<char>)>,
    key: Seq<char>,
    value: Seq<char>,
    other: Seq<char>,
)
    requires
        other != key,
    ensures
        get_attr(insert_attr(m, key, value), other) == get_attr(m, other),
    decreases m.len(),
{
    if m.len() == 0 {
        let r = insert_attr(m, key, value);
        assert(r == seq![(key, value)]);
        assert(r[0].0 == key);
        assert(r.drop_first() =~= Seq::<(Seq<char>, Seq<char>)>::empty());
        assert(get_attr(r, other) == get_attr(r.drop_first(), other));
        assert(get_attr(r.drop_first(), other) is None);
    } else {
        let r = insert_attr(m, key, value);
        if m[0].0 == key {
            assert(r[0] == (key, value));
            assert(r.drop_first() =~= m.drop_first());
            assert(get_attr(r, other) == get_attr(m.drop_first(), other));
            assert(get_attr(m, other) == get_attr(m.drop_first(), other));
        } else {
            lemma_attribute_frame(m.drop_first(), key, value, other);
            assert(r[0] == m[0]);
            assert(r.drop_first() =~= insert_attr(m.drop_first(), key, value));
            assert(get_attr(r, other) == get_attr(m, other));
        }
    }
}

/// Setting the same attribute name twice leaves only the last value
/// retrievable, whatever was stored before.
pub proof fn lemma_last_attribute_wins(
    m: Seq<(Seq<char>, Seq<char>)>,
    key: Seq<char>,
    first: Seq<char>,
    last: Seq<char>,
)
    ensures
        get_attr(insert_attr(insert_attr(m, key, first), key, last), key) == Some(last),
{
    lemma_read_back_attribute(insert_attr(m, key, first), key, last);
}

impl AttrMap {
    /// An empty attribute collection.
    pub fn new() -> (r: Self)
        ensures
            r@ == Seq::<(Seq<char>, Seq<char>)>::empty(),
    {
        let r = AttrMap { pairs: Vec::new() };
        proof {
            assert(r@ =~= Seq::<(Seq<char>, Seq<char>)>::empty());
        }
        r
    }

    /// Store `value` under `key`, overwriting any previous value.
    pub fn insert(&mut self, key: String, value: String)
        ensures
            final(self)@ == insert_attr(old(self)@, key@, value@),
    {
        let ghost m = self@;
        let mut i: usize = 0;
        while i < self.pairs.len()
            invariant
                0 <= i <= self.pairs.len(),
                self@ == m,
                old(self)@ == m,
                self@.len() == self.pairs@.len(),
                forall|j: int| 0 <= j < i ==> m[j].0 != key@,
            decreases self.pairs.len() - i,
        {
            assert(m[i as int] == (self.pairs@[i as int].0@, self.pairs@[i as int].1@));
            if self.pairs[i].0 == key {
                self.pairs.set(i, (key, value));
                proof {
                    lemma_insert_attr_found(m, key@, value@, i as int);
                    assert(self@ =~= m.update(i as int, (key@, value@)));
                }
                return ;
            }
            i = i + 1;
        }
        self.pairs.push((key, value));
        proof {
            lemma_insert_attr_fresh(m, key@, value@);
            assert(self@ =~= m.push((key@, value@)));
        }
    }

    /// Look up the value stored under `key`, without mutation.
    pub fn get<'a>(&'a self, key: &str) -> (r: Option<&'a String>)
        ensures
            match r {
                Some(v) => get_attr(self@, key@) == Some(v@),
                None => get_attr(self@, key@) is None,
            },
    {
        let owned: String = key.to_owned();
        let mut i: usize = 0;
        while i < self.pairs.len()
            invariant
                0 <= i <= self.pairs.len(),
                self@.len() == self.pairs@.len(),
                owned@ == key@,
                forall|j: int| 0 <= j < i ==> self@[j].0 != key@,
            decreases self.pairs.len() - i,
        {
            assert(self@[i as int] == (self.pairs@[i as int].0@, self.pairs@[i as int].1@));
            if self.pairs[i].0 == owned {
                proof {
                    lemma_get_attr_found(self@, key@, i as int);
                }
                return Some(&self.pairs[i].1);
            }
            i = i + 1;
        }
        proof {
            lemma_get_attr_fresh(self@, key@);
        }
        None
    }

}

/// The "id" attribute.
#[derive(Debug, Default, Clone)]
pub struct Id(String);

impl Id {
    /// The value this attribute was created with.
    pub closed spec fn value_view(self) -> Seq<char> {
        self.0@
    }

    /// Create a new instance of this attribute with the specified value.
    pub fn new(c: &str) -> (r: Self)
        ensures
            r.value_view() == c@,
    {
        Id(c.to_owned())
    }
}

impl IntoAttribute for Id {
    open spec fn attr_pair(self) -> (Seq<char>, Seq<char>) {
        ("id"@, self.value_view())
    }

    fn into_attribute(self) -> (r: (String, String)) {
        ("id".to_owned(), self.0)
    }
}

/// The "style" attribute.
#[derive(Debug, Default, Clone)]
pub struct Style(String);

impl Style {
    /// The value this attribute was created with.
    pub closed spec fn value_view(self) -> Seq<char> {
        self.0@
    }

    /// Create a new instance of this attribute with the specified value.
    pub fn new(string: &str) -> (r: Self)
        ensures
            r.value_view() == string@,
    {
        Style(string.to_owned())
    }
}

impl IntoAttribute for Style {
    open spec fn attr_pair(self) -> (Seq<char>, Seq<char>) {
        ("style"@, self.value_view())
    }

    fn into_attribute(self) -> (r: (String, String)) {
        ("style".to_owned(), self.0)
    }
}

/// The tokens of a class list joined with single spaces.
pub open spec fn join_classes(tokens: Seq<Seq<char>>) -> Seq<char>
    decreases tokens.len(),
{
    if tokens.len() == 0 {
        Seq::empty()
    } else if tokens.len() == 1 {
        tokens[0]
    } else {
        join_classes(tokens.drop_last()) + " "@ + tokens.last()
    }
}

/// A builder for constructing values for the `class` attribute.
///
/// The value is a set of class tokens: attaching a token that is already
/// present changes nothing, so duplicates collapse.  At render time the
/// tokens are joined with spaces, in the order they were first attached.
#[derive(Debug)]
pub struct Class {
    tokens: Vec<String>,
}

impl View for Class {
    type V = Seq<Seq<char>>;

    closed spec fn view(&self) -> Seq<Seq<char>> {
        self.tokens@.map_values(|t: String| t@)
    }
}

impl Clone for Class {
    /// A copy holding the same class tokens in the same order.
    fn clone(&self) -> (res: Self)
        ensures
            res@ == self@,
    {
        let mut tokens: Vec<String> = Vec::new();
        let mut i: usize = 0;
        while i < self.tokens.len()
            invariant
                0 <= i <= self.tokens.len(),
                tokens@ == self.tokens@.take(i as int),
            decreases self.tokens.len() - i,
        {
            let token = self.tokens[i].clone();
            tokens.push(token);
            proof {
                assert(token == self.tokens@[i as int]);
                assert(tokens@ =~= self.tokens@.take(i + 1));
            }
            i = i + 1;
        }
        proof {
            assert(self.tokens@.take(self.tokens.len() as int) =~= self.tokens@);
        }
        let res = Class { tokens };
        proof {
            assert(res@ =~= self@);
        }
        res
    }
}

impl Class {
    /// An empty class list.
    pub fn new() -> (r: Self)
        ensures
            r@ == Seq::<Seq<char>>::empty(),
    {
        let r = Class { tokens: Vec::new() };
        proof {
            assert(r@ =~= Seq::<Seq<char>>::empty());
        }
        r
    }

    /// Add a new class to this `Class` attribute.  A token that is already
    /// present is not added again.
    pub fn class(self, class: &str) -> (r: Self)
        ensures
            self@.contains(class@) ==> r@ == self@,
            !self@.contains(class@) ==> r@ == self@.push(class@),
    {
        let mut s = self;
        let owned: String = class.to_owned();
        let mut i: usize = 0;
        while i < s.tokens.len()
            invariant
                0 <= i <= s.tokens.len(),
                s == self,
                s@.len() == s.tokens@.len(),
                owned@ == class@,
                forall|j: int| 0 <= j < i ==> s@[j] != class@,
            decreases s.tokens.len() - i,
        {
            assert(s@[i as int] == s.tokens@[i as int]@);
            if s.tokens[i] == owned {
                assert(s@.contains(class@));
                return s;
            }
            i = i + 1;
        }
        assert(!s@.contains(class@));
        let ghost before = s@;
        s.tokens.push(owned);
        proof {
            assert(s@ =~= before.push(class@));
        }
        s
    }
}

impl From<&'static str> for Class {
    /// Start a class list holding the one given token.
    fn from(string: &'static str) -> (r: Class) {
        Class::new().class(string)
    }
}

/// A spec-level `Class` value cannot be written down from a string alone (its
/// token vector is an executable structure), so this conversion carries no
/// `from_spec` description; callers who want a specified value build one with
/// `Class::new` and `class`, whose contracts are exact.
impl vstd::std_specs::convert::FromSpecImpl<&'static str> for Class {
    open spec fn obeys_from_spec() -> bool {
        false
    }

    open spec fn from_spec(string: &'static str) -> Class {
        arbitrary()
    }
}

impl IntoAttribute for Class {
    open spec fn attr_pair(self) -> (Seq<char>, Seq<char>) {
        ("class"@, join_classes(self@))
    }

    fn into_attribute(self) -> (r: (String, String)) {
        let mut value = String::new();
        let ghost toks = self@;
        let mut i: usize = 0;
        while i < self.tokens.len()
            invariant
                0 <= i <= self.tokens.len(),
                self@ == toks,
                toks.len() == self.tokens@.len(),
                value@ == join_classes(toks.take(i as int)),
            decreases self.tokens.len() - i,
        {
            assert(toks[i as int] == self.tokens@[i as int]@);
            if i > 0 {
                value.append(" ");
            }
            value.append(self.tokens[i].as_str());
            proof {
                assert(toks.take(i + 1).drop_last() =~= toks.take(i as int));
                assert(toks.take(i + 1).last() == toks[i as int]);
            }
            i = i + 1;
        }
        proof {
            assert(toks.take(toks.len() as int) =~= toks);
        }
        ("class".to_owned(), value)
    }
}

/// Append the markup text of `attrs` to `out`: ` name="value"` for each
/// attribute, in order.
pub fn write_attributes(attrs: &AttrMap, out: &mut String)
    ensures
        final(out)@ == old(out)@ + render_attrs(attrs@),
{
    let ghost base = out@;
    let ghost m = attrs@;
    let mut i: usize = 0;
    while i < attrs.pairs.len()
        invariant
            0 <= i <= attrs.pairs.len(),
            attrs@ == m,
            m.len() == attrs.pairs@.len(),
            out@ == base + render_attrs(m.take(i as int)),
        decreases attrs.pairs.len() - i,
    {
        assert(m[i as int] == (attrs.pairs@[i as int].0@, attrs.pairs@[i as int].1@));
        out.append(" ");
        out.append(attrs.pairs[i].0.as_str());
        out.append("=\"");
        out.append(attrs.pairs[i].1.as_str());
        out.append("\"");
        proof {
            assert(m.take(i + 1).drop_last() =~= m.take(i as int));
            assert(m.take(i + 1).last() == m[i as int]);
        }
        i = i + 1;
    }
    proof {
        assert(m.take(m.len() as int) =~= m);
    }
}

} // verus!
