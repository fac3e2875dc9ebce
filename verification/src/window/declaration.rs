//! The declarative field and event descriptors behind the builder.
//!
//! The builder's surface — which fields exist, their defaults, which
//! fields conflict or require one another, which events carry callbacks
//! — is described by a list of [`Data`] and [`Callback`] descriptors.
//! [`Data::add`] and [`Callback::add`] fold a declaration's attributes
//! into a descriptor, rejecting malformed declarations; [`validate`]
//! checks the rules that hold across descriptors, above all that every
//! conflict is declared from both sides.  All of these are
//! definition-time errors: a declaration that fails here is unusable
//! before any window is ever built.  [`window_declaration`] is the
//! concrete declaration that the builder of this crate implements.

use vstd::prelude::*;

verus! {

/// One attribute of a field or event declaration.  The payloads carry
/// declaration text — a default expression, a field name, a usage
/// expression, an event pattern — that this layer stores but does not
/// interpret.
#[derive(Debug, Clone)]
pub enum Attr {
    /// A default for the declared field or event.
    Default(String),
    /// The name of a field the declared field conflicts with.
    Conflict(String),
    /// The name of a field the declared field requires.
    Require(String),
    /// How the declared field acts on the collaborator's builder.
    Usage(String),
    /// The event pattern a callback is dispatched on.
    On(String),
    /// The quoted marker of a callback that is invoked uniquely rather
    /// than dispatched on an event.
    Unique(String),
}

/// The kinds of attribute a declaration can carry.
#[derive(Debug, Clone, Copy, PartialEq, Eq, Structural)]
pub enum AttrKind {
    /// A default.
    Default,
    /// A conflict name.
    Conflict,
    /// A requirement name.
    Require,
    /// A usage expression.
    Usage,
    /// An event pattern.
    On,
    /// A unique marker.
    Unique,
}

/// The payload of `a` when it is of kind `k`, as a sequence of zero or
/// one strings.
pub open spec fn sel(a: Attr, k: AttrKind) -> Seq<String> {
    match k {
        AttrKind::Default => match a {
            Attr::Default(s) => seq![s],
            _ => Seq::empty(),
        },
        AttrKind::Conflict => match a {
            Attr::Conflict(s) => seq![s],
            _ => Seq::empty(),
        },
        AttrKind::Require => match a {
            Attr::Require(s) => seq![s],
            _ => Seq::empty(),
        },
        AttrKind::Usage => match a {
            Attr::Usage(s) => seq![s],
            _ => Seq::empty(),
        },
        AttrKind::On => match a {
            Attr::On(s) => seq![s],
            _ => Seq::empty(),
        },
        AttrKind::Unique => match a {
            Attr::Unique(s) => seq![s],
            _ => Seq::empty(),
        },
    }
}

/// The payloads of kind `k` among `attrs`, in attribute order.
pub open spec fn collect(attrs: Seq<Attr>, k: AttrKind) -> Seq<String>
    decreases attrs.len(),
{
    if attrs.len() == 0 {
        Seq::empty()
    } else {
        sel(attrs[0], k) + collect(attrs.drop_first(), k)
    }
}

/// Law: collecting from one more attribute appends its payload.
pub proof fn lemma_collect_push(attrs: Seq<Attr>, a: Attr, k: AttrKind)
    ensures
        collect(attrs.push(a), k) == collect(attrs, k) + sel(a, k),
    decreases attrs.len(),
{
    if attrs.len() == 0 {
        assert(attrs.push(a)[0] == a);
        assert(attrs.push(a).drop_first() =~= Seq::<Attr>::empty());
        assert(collect(Seq::<Attr>::empty(), k) == Seq::<String>::empty());
        assert(collect(attrs.push(a), k) == sel(a, k) + collect(Seq::<Attr>::empty(), k));
        assert(collect(attrs.push(a), k) =~= collect(attrs, k) + sel(a, k));
    } else {
        lemma_collect_push(attrs.drop_first(), a, k);
        assert(attrs.push(a)[0] == attrs[0]);
        assert(attrs.push(a).drop_first() =~= attrs.drop_first().push(a));
        assert(collect(attrs.push(a), k) =~= collect(attrs, k) + sel(a, k));
    }
}

/// Law: what a prefix of `attrs` yields is a prefix of what all of
/// `attrs` yields; in particular it is no longer.
pub proof fn lemma_collect_prefix_le(attrs: Seq<Attr>, i: int, k: AttrKind)
    requires
        0 <= i <= attrs.len(),
    ensures
        collect(attrs, k) == collect(attrs.take(i), k) + collect(attrs.skip(i), k),
        collect(attrs.take(i), k).len() <= collect(attrs, k).len(),
    decreases i,
{
    if i == 0 {
        assert(attrs.take(0) =~= Seq::<Attr>::empty());
        assert(attrs.skip(0) =~= attrs);
        assert(collect(attrs, k) =~= collect(attrs.take(0), k) + collect(attrs.skip(0), k));
    } else {
        lemma_collect_prefix_le(attrs.drop_first(), i - 1, k);
        assert(attrs.take(i)[0] == attrs[0]);
        assert(attrs.take(i).drop_first() =~= attrs.drop_first().take(i - 1));
        assert(attrs.skip(i) =~= attrs.drop_first().skip(i - 1));
        assert(collect(attrs, k) =~= collect(attrs.take(i), k) + collect(attrs.skip(i), k));
    }
}

/// Law: collecting from a one-attribute list yields exactly the
/// selected payload.
proof fn lemma_collect_one(a0: Attr, k: AttrKind)
    ensures
        collect(seq![a0], k) == sel(a0, k),
{
    assert(seq![a0][0] == a0);
    assert(seq![a0].drop_first() =~= Seq::<Attr>::empty());
    assert(collect(Seq::<Attr>::empty(), k) == Seq::<String>::empty());
    assert(collect(seq![a0], k) =~= sel(a0, k));
}

/// Law: collecting from a two-attribute list yields exactly the
/// selected payloads, in order.
proof fn lemma_collect_two(a0: Attr, a1: Attr, k: AttrKind)
    ensures
        collect(seq![a0, a1], k) == sel(a0, k) + sel(a1, k),
{
    lemma_collect_one(a1, k);
    assert(seq![a0, a1][0] == a0);
    assert(seq![a0, a1].drop_first() =~= seq![a1]);
    assert(collect(seq![a0, a1], k) =~= sel(a0, k) + sel(a1, k));
}

/// The default payloads among `attrs`.
pub open spec fn defaults_of(attrs: Seq<Attr>) -> Seq<String> {
    collect(attrs, AttrKind::Default)
}

/// The conflict names among `attrs`.
pub open spec fn conflicts_of(attrs: Seq<Attr>) -> Seq<String> {
    collect(attrs, AttrKind::Conflict)
}

/// The requirement names among `attrs`.
pub open spec fn requires_of(attrs: Seq<Attr>) -> Seq<String> {
    collect(attrs, AttrKind::Require)
}

/// The usage payloads among `attrs`.
pub open spec fn usages_of(attrs: Seq<Attr>) -> Seq<String> {
    collect(attrs, AttrKind::Usage)
}

/// The event patterns among `attrs`.
pub open spec fn ons_of(attrs: Seq<Attr>) -> Seq<String> {
    collect(attrs, AttrKind::On)
}

/// The unique markers among `attrs`.
pub open spec fn uniques_of(attrs: Seq<Attr>) -> Seq<String> {
    collect(attrs, AttrKind::Unique)
}

/// A string wrapped in double quotes.
pub open spec fn quoted(s: Seq<char>) -> bool {
    s.len() >= 2 && s[0] == '"' && s[s.len() - 1] == '"'
}

/// Why a declaration was rejected.
#[derive(Debug, Clone, PartialEq)]
pub enum DeclError {
    /// A declaration carries more than one default.
    MultipleDefaults,
    /// A field without an inner value carries a default.
    DefaultOnShort,
    /// A field declaration carries more than one usage.
    MultipleUsages,
    /// A field declaration carries neither a usage nor a requirement.
    NoUsageOrRequire,
    /// An event declaration carries more than one unique marker.
    MultipleUniques,
    /// An event declaration carries more than one event pattern.
    MultipleOns,
    /// An event declaration carries neither an event pattern nor a
    /// unique marker.
    NoOnOrUnique,
    /// A unique marker is not wrapped in double quotes.
    UnquotedUnique,
    /// A unique marker carries a value this library does not know.
    UnknownUnique(String),
    /// A conflict names a field that no declaration introduces.
    UnknownField(String),
    /// A field declares a conflict that the named field does not
    /// declare back; carries the declaring field's name, then the named
    /// field's name.
    AsymmetricConflict(String, String),
}

/// A field descriptor: what one data declaration of the builder means.
#[derive(Debug, Clone)]
pub struct Data {
    /// The lowercase name of the field, e.g. `title`.
    pub lower: String,
    /// The default expression; empty when the field has no default.
    pub default: String,
    /// The names of the fields this one conflicts with: the user cannot
    /// give both.
    pub conflict: Vec<String>,
    /// The names of the fields this one requires to be given as well.
    pub require: Vec<String>,
    /// How the field acts on the collaborator's builder; empty for a
    /// field with requirements only.
    pub usage: String,
    /// Whether the field carries no inner value.
    pub short: bool,
}

/// Whether a field declaration's attributes are well-formed.
pub open spec fn data_attrs_valid(attrs: Seq<Attr>, short: bool) -> bool {
    &&& defaults_of(attrs).len() <= 1
    &&& (short ==> defaults_of(attrs).len() == 0)
    &&& usages_of(attrs).len() <= 1
    &&& (usages_of(attrs).len() == 1 || requires_of(attrs).len() >= 1)
}

impl Data {
    /// Folds a field declaration into its descriptor.  Succeeds exactly
    /// when the attributes are well-formed: at most one default and one
    /// usage, no default on a field without an inner value, and a usage
    /// or at least one requirement present.
    pub fn add(lower: String, short: bool, attrs: &Vec<Attr>) -> (r: Result<Data, DeclError>)
        ensures
            match r {
                Ok(d) => {
                    &&& data_attrs_valid(attrs@, short)
                    &&& d.lower == lower
                    &&& d.short == short
                    &&& d.conflict@ == conflicts_of(attrs@)
                    &&& d.require@ == requires_of(attrs@)
                    &&& (defaults_of(attrs@).len() == 1 ==> d.default == defaults_of(attrs@)[0])
                    &&& (defaults_of(attrs@).len() == 0 ==> d.default@ == Seq::<char>::empty())
                    &&& (usages_of(attrs@).len() == 1 ==> d.usage == usages_of(attrs@)[0])
                    &&& (usages_of(attrs@).len() == 0 ==> d.usage@ == Seq::<char>::empty())
                },
                Err(e) => {
                    &&& !data_attrs_valid(attrs@, short)
                    &&& match e {
                        DeclError::MultipleDefaults => defaults_of(attrs@).len() > 1,
                        DeclError::DefaultOnShort => short && defaults_of(attrs@).len() >= 1,
                        DeclError::MultipleUsages => usages_of(attrs@).len() > 1,
                        DeclError::NoUsageOrRequire => usages_of(attrs@).len() == 0
                            && requires_of(attrs@).len() == 0,
                        _ => false,
                    }
                },
            },
    {
        let mut default: Option<String> = None;
        let mut conflict: Vec<String> = Vec::new();
        let mut require: Vec<String> = Vec::new();
        let mut usage: Option<String> = None;
        let mut i: usize = 0;
        proof {
            assert(attrs@.take(0) =~= Seq::<Attr>::empty());
        }
        while i < attrs.len()
            invariant
                i <= attrs@.len(),
                match default {
                    None => defaults_of(attrs@.take(i as int)).len() == 0,
                    Some(d) => defaults_of(attrs@.take(i as int)) == seq![d],
                },
                match usage {
                    None => usages_of(attrs@.take(i as int)).len() == 0,
                    Some(u) => usages_of(attrs@.take(i as int)) == seq![u],
                },
                conflict@ == conflicts_of(attrs@.take(i as int)),
                require@ == requires_of(attrs@.take(i as int)),
                short ==> default is None,
            decreases attrs@.len() - i,
        {
            proof {
                assert(attrs@.take(i as int + 1)
                    =~= attrs@.take(i as int).push(attrs@[i as int]));
                lemma_collect_push(attrs@.take(i as int), attrs@[i as int], AttrKind::Default);
                lemma_collect_push(attrs@.take(i as int), attrs@[i as int], AttrKind::Conflict);
                lemma_collect_push(attrs@.take(i as int), attrs@[i as int], AttrKind::Require);
                lemma_collect_push(attrs@.take(i as int), attrs@[i as int], AttrKind::Usage);
            }
            match &attrs[i] {
                Attr::Default(s) => {
                    if default.is_some() {
                        proof {
                            assert(defaults_of(attrs@).len() > 1) by {
                                lemma_collect_prefix_le(attrs@, i as int + 1, AttrKind::Default);
                            }
                        }
                        return Err(DeclError::MultipleDefaults);
                    }
                    if short {
                        proof {
                            assert(defaults_of(attrs@).len() >= 1) by {
                                lemma_collect_prefix_le(attrs@, i as int + 1, AttrKind::Default);
                            }
                        }
                        return Err(DeclError::DefaultOnShort);
                    }
                    default = Some(s.clone());
                },
                Attr::Conflict(s) => {
                    conflict.push(s.clone());
                },
                Attr::Require(s) => {
                    require.push(s.clone());
                },
                Attr::Usage(s) => {
                    if usage.is_some() {
                        proof {
                            assert(usages_of(attrs@).len() > 1) by {
                                lemma_collect_prefix_le(attrs@, i as int + 1, AttrKind::Usage);
                            }
                        }
                        return Err(DeclError::MultipleUsages);
                    }
                    usage = Some(s.clone());
                },
                Attr::On(_) => {},
                Attr::Unique(_) => {},
            }
            i += 1;
        }
        proof {
            assert(attrs@.take(attrs@.len() as int) =~= attrs@);
        }
        let usage = match usage {
            Some(u) => u,
            None => {
                if require.len() == 0 {
                    return Err(DeclError::NoUsageOrRequire);
                }
                String::new()
            },
        };
        let default = match default {
            Some(d) => d,
            None => String::new(),
        };
        Ok(Data { lower, default, conflict, require, usage, short })
    }
}

/// An event descriptor: what one callback declaration of the builder
/// means.
#[derive(Debug, Clone)]
pub struct Callback {
    /// The lowercase name of the event, e.g. `on_close`.
    pub lower: String,
    /// The unique-invocation marker, unquoted; empty for a callback
    /// dispatched on an event.
    pub unique: String,
    /// The behaviour when no callback is registered; empty for none.
    pub default: String,
    /// The event pattern the callback is dispatched on; empty for a
    /// unique callback.
    pub on: String,
    /// The comma-separated argument names handed to the callback.
    pub args: String,
}

/// Whether an event declaration's attributes are well-formed.
pub open spec fn cb_attrs_valid(attrs: Seq<Attr>) -> bool {
    &&& uniques_of(attrs).len() <= 1
    &&& (uniques_of(attrs).len() == 1 ==> quoted(uniques_of(attrs)[0]@))
    &&& defaults_of(attrs).len() <= 1
    &&& ons_of(attrs).len() <= 1
    &&& (ons_of(attrs).len() == 1 || uniques_of(attrs).len() == 1)
}

impl Callback {
    /// Folds an event declaration into its descriptor.  Succeeds
    /// exactly when the attributes are well-formed: at most one unique
    /// marker, one default and one event pattern, the unique marker
    /// wrapped in double quotes, and a pattern or a unique marker
    /// present.
    pub fn add(lower: String, args: String, attrs: &Vec<Attr>) -> (r: Result<Callback, DeclError>)
        ensures
            match r {
                Ok(c) => {
                    &&& cb_attrs_valid(attrs@)
                    &&& c.lower == lower
                    &&& c.args == args
                    &&& (defaults_of(attrs@).len() == 1 ==> c.default == defaults_of(attrs@)[0])
                    &&& (defaults_of(attrs@).len() == 0 ==> c.default@ == Seq::<char>::empty())
                    &&& (ons_of(attrs@).len() == 1 ==> c.on == ons_of(attrs@)[0])
                    &&& (ons_of(attrs@).len() == 0 ==> c.on@ == Seq::<char>::empty())
                    &&& (uniques_of(attrs@).len() == 1 ==> c.unique@ == uniques_of(
                        attrs@,
                    )[0]@.subrange(1, uniques_of(attrs@)[0]@.len() - 1))
                    &&& (uniques_of(attrs@).len() == 0 ==> c.unique@ == Seq::<char>::empty())
                },
                Err(e) => {
                    &&& !cb_attrs_valid(attrs@)
                    &&& match e {
                        DeclError::MultipleUniques => uniques_of(attrs@).len() > 1,
                        DeclError::UnquotedUnique => uniques_of(attrs@).len() >= 1
                            && !quoted(uniques_of(attrs@)[0]@),
                        DeclError::MultipleDefaults => defaults_of(attrs@).len() > 1,
                        DeclError::MultipleOns => ons_of(attrs@).len() > 1,
                        DeclError::NoOnOrUnique => ons_of(attrs@).len() == 0
                            && uniques_of(attrs@).len() == 0,
                        _ => false,
                    }
                },
            },
    {
        let mut unique: Option<String> = None;
        let mut default: Option<String> = None;
        let mut on: Option<String> = None;
        let mut i: usize = 0;
        proof {
            assert(attrs@.take(0) =~= Seq::<Attr>::empty());
        }
        while i < attrs.len()
            invariant
                i <= attrs@.len(),
                match default {
                    None => defaults_of(attrs@.take(i as int)).len() == 0,
                    Some(d) => defaults_of(attrs@.take(i as int)) == seq![d],
                },
                match on {
                    None => ons_of(attrs@.take(i as int)).len() == 0,
                    Some(o) => ons_of(attrs@.take(i as int)) == seq![o],
                },
                match unique {
                    None => uniques_of(attrs@.take(i as int)).len() == 0,
                    Some(u) => uniques_of(attrs@.take(i as int)).len() == 1
                        && quoted(uniques_of(attrs@.take(i as int))[0]@)
                        && u@ == uniques_of(attrs@.take(i as int))[0]@.subrange(
                            1,
                            uniques_of(attrs@.take(i as int))[0]@.len() - 1,
                        ),
                },
            decreases attrs@.len() - i,
        {
            proof {
                assert(attrs@.take(i as int + 1)
                    =~= attrs@.take(i as int).push(attrs@[i as int]));
                lemma_collect_push(attrs@.take(i as int), attrs@[i as int], AttrKind::Default);
                lemma_collect_push(attrs@.take(i as int), attrs@[i as int], AttrKind::On);
                lemma_collect_push(attrs@.take(i as int), attrs@[i as int], AttrKind::Unique);
            }
            match &attrs[i] {
                Attr::Unique(s) => {
                    if unique.is_some() {
                        proof {
                            assert(uniques_of(attrs@).len() > 1) by {
                                lemma_collect_prefix_le(attrs@, i as int + 1, AttrKind::Unique);
                            }
                        }
                        return Err(DeclError::MultipleUniques);
                    }
                    match expect_double_quotes(s.as_str()) {
                        Some(inner) => {
                            unique = Some(inner);
                        },
                        None => {
                            proof {
                                lemma_collect_prefix_le(attrs@, i as int + 1, AttrKind::Unique);
                                assert(uniques_of(attrs@).len() >= 1);
                                assert(uniques_of(attrs@)[0] == *s);
                            }
                            return Err(DeclError::UnquotedUnique);
                        },
                    }
                },
                Attr::Default(s) => {
                    if default.is_some() {
                        proof {
                            assert(defaults_of(attrs@).len() > 1) by {
                                lemma_collect_prefix_le(attrs@, i as int + 1, AttrKind::Default);
                            }
                        }
                        return Err(DeclError::MultipleDefaults);
                    }
                    default = Some(s.clone());
                },
                Attr::On(s) => {
                    if on.is_some() {
                        proof {
                            assert(ons_of(attrs@).len() > 1) by {
                                lemma_collect_prefix_le(attrs@, i as int + 1, AttrKind::On);
                            }
                        }
                        return Err(DeclError::MultipleOns);
                    }
                    on = Some(s.clone());
                },
                Attr::Conflict(_) => {},
                Attr::Require(_) => {},
                Attr::Usage(_) => {},
            }
            i += 1;
        }
        proof {
            assert(attrs@.take(attrs@.len() as int) =~= attrs@);
        }
        let on = match on {
            Some(o) => o,
            None => {
                if unique.is_none() {
                    return Err(DeclError::NoOnOrUnique);
                }
                String::new()
            },
        };
        let unique = match unique {
            Some(u) => u,
            None => String::new(),
        };
        let default = match default {
            Some(d) => d,
            None => String::new(),
        };
        Ok(Callback { lower, unique, default, on, args })
    }
}

/// Strips the double quotes from around the string: the inner text when
/// the string begins and ends with one, `None` otherwise.
pub fn expect_double_quotes(s: &str) -> (r: Option<String>)
    ensures
        match r {
            Some(inner) => quoted(s@) && inner@ == s@.subrange(1, s@.len() - 1),
            None => !quoted(s@),
        },
{
    let n = s.unicode_len();
    if n < 2 {
        return None;
    }
    if s.get_char(0) != '"' {
        return None;
    }
    if s.get_char(n - 1) != '"' {
        return None;
    }
    Some(String::from_str(s.substring_char(1, n - 1)))
}

/// The index of the first descriptor named `name`, head first, or `-1`
/// when none carries that name.
pub open spec fn first_field(data: Seq<Data>, name: Seq<char>) -> int
    decreases data.len(),
{
    if data.len() == 0 {
        -1
    } else if data[0].lower@ == name {
        0
    } else if first_field(data.drop_first(), name) == -1 {
        -1
    } else {
        1 + first_field(data.drop_first(), name)
    }
}

/// Whether one of `names` reads `name`.
pub open spec fn contains_name(names: Seq<String>, name: Seq<char>) -> bool {
    exists|m: int| 0 <= m < names.len() && (#[trigger] names[m])@ == name
}

/// Law: a found first field is in bounds and carries the name.
pub proof fn lemma_first_field_found(data: Seq<Data>, name: Seq<char>)
    requires
        first_field(data, name) >= 0,
    ensures
        first_field(data, name) < data.len(),
        data[first_field(data, name)].lower@ == name,
    decreases data.len(),
{
    if data.len() > 0 && data[0].lower@ != name {
        lemma_first_field_found(data.drop_first(), name);
        assert(data.drop_first()[first_field(data.drop_first(), name)]
            == data[first_field(data, name)]);
    }
}

/// The scan conditions that pin the first field: no descriptor before
/// `j` carries the name, and `j` is the whole length or a carrier's
/// place.
proof fn lemma_first_field_scan(data: Seq<Data>, name: Seq<char>, j: int)
    requires
        0 <= j <= data.len(),
        forall|m: int| 0 <= m < j ==> (#[trigger] data[m]).lower@ != name,
        j == data.len() || data[j].lower@ == name,
    ensures
        first_field(data, name) == if j == data.len() { -1 } else { j },
    decreases data.len(),
{
    if j > 0 {
        assert forall|m: int| 0 <= m < j - 1
            implies (#[trigger] data.drop_first()[m]).lower@ != name by {
            assert(data.drop_first()[m] == data[m + 1]);
        }
        if j < data.len() {
            assert(data.drop_first()[j - 1] == data[j]);
        }
        lemma_first_field_scan(data.drop_first(), name, j - 1);
    }
}

/// Every conflict names a declared field.
pub open spec fn conflicts_known(data: Seq<Data>) -> bool {
    forall|i: int, k: int| 0 <= i < data.len() && 0 <= k < data[i].conflict@.len()
        ==> first_field(data, (#[trigger] data[i].conflict@[k])@) >= 0
}

/// Every conflict is declared from both sides: the field a conflict
/// names declares the conflict back.
pub open spec fn conflicts_symmetric(data: Seq<Data>) -> bool {
    forall|i: int, k: int| 0 <= i < data.len() && 0 <= k < data[i].conflict@.len()
        ==> {
            let j = first_field(data, (#[trigger] data[i].conflict@[k])@);
            j >= 0 && contains_name(data[j].conflict@, data[i].lower@)
        }
}

/// Every unique marker is empty or the one marker this library knows.
pub open spec fn uniques_known(callbacks: Seq<Callback>) -> bool {
    forall|i: int| 0 <= i < callbacks.len()
        ==> ((#[trigger] callbacks[i].unique)@ == Seq::<char>::empty()
            || callbacks[i].unique@ == "init"@)
}

/// The place of the first descriptor named `name`, if any carries it.
fn find_field(data: &Vec<Data>, name: &String) -> (r: Option<usize>)
    ensures
        match r {
            Some(j) => j < data@.len() && first_field(data@, name@) == j as int
                && data@[j as int].lower@ == name@,
            None => first_field(data@, name@) == -1,
        },
{
    let mut j: usize = 0;
    while j < data.len()
        invariant
            j <= data@.len(),
            forall|m: int| 0 <= m < j ==> (#[trigger] data@[m]).lower@ != name@,
        decreases data@.len() - j,
    {
        if data[j].lower.eq(name) {
            proof {
                lemma_first_field_scan(data@, name@, j as int);
            }
            return Some(j);
        }
        j += 1;
    }
    proof {
        lemma_first_field_scan(data@, name@, data@.len() as int);
    }
    None
}

/// Whether one of `names` reads `name`.
fn lists_name(names: &Vec<String>, name: &String) -> (r: bool)
    ensures
        r == contains_name(names@, name@),
{
    let mut m: usize = 0;
    while m < names.len()
        invariant
            m <= names@.len(),
            forall|j: int| 0 <= j < m ==> (#[trigger] names@[j])@ != name@,
        decreases names@.len() - m,
    {
        if names[m].eq(name) {
            return true;
        }
        m += 1;
    }
    false
}

/// Checks the rules that hold across a whole declaration: every
/// conflict names a declared field and is declared from both sides, and
/// every unique marker carries a known value.  Succeeds exactly when
/// all three hold; each error carries the offending names.
pub fn validate(data: &Vec<Data>, callbacks: &Vec<Callback>) -> (r: Result<(), DeclError>)
    ensures
        match r {
            Ok(_) => conflicts_known(data@) && conflicts_symmetric(data@)
                && uniques_known(callbacks@),
            Err(e) => match e {
                DeclError::UnknownField(n) => {
                    &&& !conflicts_known(data@)
                    &&& first_field(data@, n@) == -1
                    &&& exists|i2: int, k2: int|
                        0 <= i2 < data@.len() && 0 <= k2 < data@[i2].conflict@.len()
                            && (#[trigger] data@[i2].conflict@[k2])@ == n@
                },
                DeclError::AsymmetricConflict(a, b) => {
                    &&& !conflicts_symmetric(data@)
                    &&& ({
                        let j = first_field(data@, b@);
                        0 <= j < data@.len() && data@[j].lower@ == b@
                            && !contains_name(data@[j].conflict@, a@)
                    })
                    &&& exists|i2: int, k2: int|
                        0 <= i2 < data@.len() && 0 <= k2 < data@[i2].conflict@.len()
                            && data@[i2].lower@ == a@
                            && (#[trigger] data@[i2].conflict@[k2])@ == b@
                },
                DeclError::UnknownUnique(u) => {
                    &&& !uniques_known(callbacks@)
                    &&& u@ != Seq::<char>::empty()
                    &&& u@ != "init"@
                    &&& exists|i2: int| 0 <= i2 < callbacks@.len()
                        && (#[trigger] callbacks@[i2]).unique@ == u@
                },
                _ => false,
            },
        },
{
    let mut i: usize = 0;
    while i < data.len()
        invariant
            i <= data@.len(),
            forall|i2: int, k2: int|
                0 <= i2 < i && 0 <= k2 < data@[i2].conflict@.len() ==> {
                    let j = first_field(data@, (#[trigger] data@[i2].conflict@[k2])@);
                    j >= 0 && contains_name(data@[j].conflict@, data@[i2].lower@)
                },
        decreases data@.len() - i,
    {
        let mut k: usize = 0;
        while k < data[i].conflict.len()
            invariant
                i < data@.len(),
                k <= data@[i as int].conflict@.len(),
                forall|i2: int, k2: int|
                    0 <= i2 < i && 0 <= k2 < data@[i2].conflict@.len() ==> {
                        let j = first_field(data@, (#[trigger] data@[i2].conflict@[k2])@);
                        j >= 0 && contains_name(data@[j].conflict@, data@[i2].lower@)
                    },
                forall|k2: int|
                    0 <= k2 < k ==> {
                        let j = first_field(data@, (#[trigger] data@[i as int].conflict@[k2])@);
                        j >= 0 && contains_name(data@[j].conflict@, data@[i as int].lower@)
                    },
            decreases data@[i as int].conflict@.len() - k,
        {
            let name = &data[i].conflict[k];
            match find_field(data, name) {
                None => {
                    proof {
                        assert((i as int) < data@.len()
                            && (k as int) < data@[i as int].conflict@.len()
                            && data@[i as int].conflict@[k as int]@ == name@);
                    }
                    return Err(DeclError::UnknownField(name.clone()));
                },
                Some(j) => {
                    if !lists_name(&data[j].conflict, &data[i].lower) {
                        proof {
                            assert((i as int) < data@.len()
                                && (k as int) < data@[i as int].conflict@.len()
                                && data@[i as int].conflict@[k as int]@ == name@);
                        }
                        return Err(DeclError::AsymmetricConflict(
                            data[i].lower.clone(),
                            name.clone(),
                        ));
                    }
                },
            }
            k += 1;
        }
        i += 1;
    }
    let mut c: usize = 0;
    while c < callbacks.len()
        invariant
            c <= callbacks@.len(),
            forall|i2: int| 0 <= i2 < c
                ==> ((#[trigger] callbacks@[i2].unique)@ == Seq::<char>::empty()
                    || callbacks@[i2].unique@ == "init"@),
        decreases callbacks@.len() - c,
    {
        let u = &callbacks[c].unique;
        if u.as_str().unicode_len() == 0 {
            proof {
                assert(u@ =~= Seq::<char>::empty());
            }
        } else {
            let init = "init".to_owned();
            if !u.eq(&init) {
                proof {
                    assert((c as int) < callbacks@.len()
                        && callbacks@[c as int].unique@ == u@);
                }
                return Err(DeclError::UnknownUnique(u.clone()));
            }
        }
        c += 1;
    }
    Ok(())
}

/// The declarative field and event specification that this crate's
/// window builder implements: the `title`, `size`, `maximized` and
/// `size_is_logical` fields, and the `on_close`, `on_init` and
/// `on_exit` events.  The declaration is fixed and well-formed, so
/// building it always succeeds, and the descriptors it yields satisfy
/// every cross-descriptor rule that [`validate`] checks.
pub fn window_declaration() -> (r: Result<(Vec<Data>, Vec<Callback>), DeclError>)
    ensures
        match r {
            Ok(decl) => {
                &&& decl.0@.len() == 4
                &&& decl.1@.len() == 3
                &&& decl.0@[0].lower@ == "title"@
                &&& !decl.0@[0].short
                &&& decl.0@[0].default@ == "\"rokoko window\""@
                &&& decl.0@[0].usage@ == ".with_title(title)"@
                &&& decl.0@[0].conflict@.len() == 0
                &&& decl.0@[0].require@.len() == 0
                &&& decl.0@[1].lower@ == "size"@
                &&& !decl.0@[1].short
                &&& decl.0@[1].default@ == Seq::<char>::empty()
                &&& decl.0@[1].usage@ == ".with_inner_size(size)"@
                &&& decl.0@[1].conflict@.len() == 1
                &&& decl.0@[1].conflict@[0]@ == "maximized"@
                &&& decl.0@[1].require@.len() == 0
                &&& decl.0@[2].lower@ == "maximized"@
                &&& decl.0@[2].short
                &&& decl.0@[2].default@ == Seq::<char>::empty()
                &&& decl.0@[2].usage@ == ".with_maximized(true)"@
                &&& decl.0@[2].conflict@.len() == 1
                &&& decl.0@[2].conflict@[0]@ == "size"@
                &&& decl.0@[2].require@.len() == 0
                &&& decl.0@[3].lower@ == "size_is_logical"@
                &&& decl.0@[3].short
                &&& decl.0@[3].default@ == Seq::<char>::empty()
                &&& decl.0@[3].usage@ == Seq::<char>::empty()
                &&& decl.0@[3].conflict@.len() == 0
                &&& decl.0@[3].require@.len() == 1
                &&& decl.0@[3].require@[0]@ == "size"@
                &&& decl.1@[0].lower@ == "on_close"@
                &&& decl.1@[0].unique@ == Seq::<char>::empty()
                &&& decl.1@[0].on@ == "WindowEvent::CloseRequested"@
                &&& decl.1@[0].default@ == "window.close()"@
                &&& decl.1@[0].args@ == "window"@
                &&& decl.1@[1].lower@ == "on_init"@
                &&& decl.1@[1].unique@ == "init"@
                &&& decl.1@[1].on@ == Seq::<char>::empty()
                &&& decl.1@[1].default@ == Seq::<char>::empty()
                &&& decl.1@[1].args@ == "window"@
                &&& decl.1@[2].lower@ == "on_exit"@
                &&& decl.1@[2].unique@ == Seq::<char>::empty()
                &&& decl.1@[2].on@ == "UserEvent::Close"@
                &&& decl.1@[2].default@ == Seq::<char>::empty()
                &&& decl.1@[2].args@ == "window"@
                &&& conflicts_known(decl.0@)
                &&& conflicts_symmetric(decl.0@)
                &&& uniques_known(decl.1@)
            },
            Err(_) => false,
        },
{
    let mut data: Vec<Data> = Vec::new();

    let d0 = "\"rokoko window\"".to_owned();
    let u0 = ".with_title(title)".to_owned();
    let ghost gd0 = d0;
    let ghost gu0 = u0;
    let mut attrs: Vec<Attr> = Vec::new();
    attrs.push(Attr::Default(d0));
    attrs.push(Attr::Usage(u0));
    proof {
        assert(attrs@ =~= seq![Attr::Default(gd0), Attr::Usage(gu0)]);
        lemma_collect_two(Attr::Default(gd0), Attr::Usage(gu0), AttrKind::Default);
        lemma_collect_two(Attr::Default(gd0), Attr::Usage(gu0), AttrKind::Conflict);
        lemma_collect_two(Attr::Default(gd0), Attr::Usage(gu0), AttrKind::Require);
        lemma_collect_two(Attr::Default(gd0), Attr::Usage(gu0), AttrKind::Usage);
        assert(defaults_of(attrs@) =~= seq![gd0]);
        assert(usages_of(attrs@) =~= seq![gu0]);
        assert(conflicts_of(attrs@) =~= Seq::<String>::empty());
        assert(requires_of(attrs@) =~= Seq::<String>::empty());
        assert(data_attrs_valid(attrs@, false));
    }
    let title_field = Data::add("title".to_owned(), false, &attrs)?;
    data.push(title_field);

    let c1 = "maximized".to_owned();
    let u1 = ".with_inner_size(size)".to_owned();
    let ghost gc1 = c1;
    let ghost gu1 = u1;
    let mut attrs: Vec<Attr> = Vec::new();
    attrs.push(Attr::Conflict(c1));
    attrs.push(Attr::Usage(u1));
    proof {
        assert(attrs@ =~= seq![Attr::Conflict(gc1), Attr::Usage(gu1)]);
        lemma_collect_two(Attr::Conflict(gc1), Attr::Usage(gu1), AttrKind::Default);
        lemma_collect_two(Attr::Conflict(gc1), Attr::Usage(gu1), AttrKind::Conflict);
        lemma_collect_two(Attr::Conflict(gc1), Attr::Usage(gu1), AttrKind::Require);
        lemma_collect_two(Attr::Conflict(gc1), Attr::Usage(gu1), AttrKind::Usage);
        assert(defaults_of(attrs@) =~= Seq::<String>::empty());
        assert(usages_of(attrs@) =~= seq![gu1]);
        assert(conflicts_of(attrs@) =~= seq![gc1]);
        assert(requires_of(attrs@) =~= Seq::<String>::empty());
        assert(data_attrs_valid(attrs@, false));
    }
    let size_field = Data::add("size".to_owned(), false, &attrs)?;
    data.push(size_field);

    let c2 = "size".to_owned();
    let u2 = ".with_maximized(true)".to_owned();
    let ghost gc2 = c2;
    let ghost gu2 = u2;
    let mut attrs: Vec<Attr> = Vec::new();
    attrs.push(Attr::Conflict(c2));
    attrs.push(Attr::Usage(u2));
    proof {
        assert(attrs@ =~= seq![Attr::Conflict(gc2), Attr::Usage(gu2)]);
        lemma_collect_two(Attr::Conflict(gc2), Attr::Usage(gu2), AttrKind::Default);
        lemma_collect_two(Attr::Conflict(gc2), Attr::Usage(gu2), AttrKind::Conflict);
        lemma_collect_two(Attr::Conflict(gc2), Attr::Usage(gu2), AttrKind::Require);
        lemma_collect_two(Attr::Conflict(gc2), Attr::Usage(gu2), AttrKind::Usage);
        assert(defaults_of(attrs@) =~= Seq::<String>::empty());
        assert(usages_of(attrs@) =~= seq![gu2]);
        assert(conflicts_of(attrs@) =~= seq![gc2]);
        assert(requires_of(attrs@) =~= Seq::<String>::empty());
        assert(data_attrs_valid(attrs@, true));
    }
    let maximized_field = Data::add("maximized".to_owned(), true, &attrs)?;
    data.push(maximized_field);

    let r3 = "size".to_owned();
    let ghost gr3 = r3;
    let mut attrs: Vec<Attr> = Vec::new();
    attrs.push(Attr::Require(r3));
    proof {
        assert(attrs@ =~= seq![Attr::Require(gr3)]);
        lemma_collect_one(Attr::Require(gr3), AttrKind::Default);
        lemma_collect_one(Attr::Require(gr3), AttrKind::Conflict);
        lemma_collect_one(Attr::Require(gr3), AttrKind::Require);
        lemma_collect_one(Attr::Require(gr3), AttrKind::Usage);
        assert(defaults_of(attrs@) =~= Seq::<String>::empty());
        assert(usages_of(attrs@) =~= Seq::<String>::empty());
        assert(conflicts_of(attrs@) =~= Seq::<String>::empty());
        assert(requires_of(attrs@) =~= seq![gr3]);
        assert(data_attrs_valid(attrs@, true));
    }
    let logical_field = Data::add("size_is_logical".to_owned(), true, &attrs)?;
    data.push(logical_field);

    proof {
        reveal_strlit("title");
        reveal_strlit("size");
        reveal_strlit("maximized");
        reveal_strlit("size_is_logical");
        assert(data@.len() == 4);
        assert(data@[0].lower@ == "title"@ && data@[1].lower@ == "size"@
            && data@[2].lower@ == "maximized"@ && data@[3].lower@ == "size_is_logical"@);
        assert forall|m: int| 0 <= m < 2
            implies (#[trigger] data@[m]).lower@ != "maximized"@ by {
            assert("title"@.len() == 5 && "size"@.len() == 4 && "maximized"@.len() == 9);
        }
        lemma_first_field_scan(data@, "maximized"@, 2);
        assert forall|m: int| 0 <= m < 1
            implies (#[trigger] data@[m]).lower@ != "size"@ by {
            assert("title"@.len() == 5 && "size"@.len() == 4);
        }
        lemma_first_field_scan(data@, "size"@, 1);
        assert forall|i: int, k: int|
            0 <= i < data@.len() && 0 <= k < data@[i].conflict@.len()
            implies ({
                let j = first_field(data@, (#[trigger] data@[i].conflict@[k])@);
                j >= 0 && contains_name(data@[j].conflict@, data@[i].lower@)
            }) by {
            if i == 1 {
                assert(data@[1].conflict@[0]@ == "maximized"@);
                assert(first_field(data@, data@[1].conflict@[k]@) == 2);
                assert(data@[2].conflict@[0]@ == "size"@);
                assert(contains_name(data@[2].conflict@, data@[1].lower@));
            } else if i == 2 {
                assert(data@[2].conflict@[0]@ == "size"@);
                assert(first_field(data@, data@[2].conflict@[k]@) == 1);
                assert(data@[1].conflict@[0]@ == "maximized"@);
                assert(contains_name(data@[1].conflict@, data@[2].lower@));
            } else {
                assert(data@[i].conflict@.len() == 0);
            }
        }
    }

    let mut callbacks: Vec<Callback> = Vec::new();

    let o4 = "WindowEvent::CloseRequested".to_owned();
    let d4 = "window.close()".to_owned();
    let ghost go4 = o4;
    let ghost gd4 = d4;
    let mut attrs: Vec<Attr> = Vec::new();
    attrs.push(Attr::On(o4));
    attrs.push(Attr::Default(d4));
    proof {
        assert(attrs@ =~= seq![Attr::On(go4), Attr::Default(gd4)]);
        lemma_collect_two(Attr::On(go4), Attr::Default(gd4), AttrKind::Default);
        lemma_collect_two(Attr::On(go4), Attr::Default(gd4), AttrKind::On);
        lemma_collect_two(Attr::On(go4), Attr::Default(gd4), AttrKind::Unique);
        assert(defaults_of(attrs@) =~= seq![gd4]);
        assert(ons_of(attrs@) =~= seq![go4]);
        assert(uniques_of(attrs@) =~= Seq::<String>::empty());
        assert(cb_attrs_valid(attrs@));
    }
    let on_close_event = Callback::add("on_close".to_owned(), "window".to_owned(), &attrs)?;
    callbacks.push(on_close_event);

    let q5 = "\"init\"".to_owned();
    let ghost gq5 = q5;
    let mut attrs: Vec<Attr> = Vec::new();
    attrs.push(Attr::Unique(q5));
    proof {
        reveal_strlit("\"init\"");
        reveal_strlit("init");
        assert(attrs@ =~= seq![Attr::Unique(gq5)]);
        lemma_collect_one(Attr::Unique(gq5), AttrKind::Default);
        lemma_collect_one(Attr::Unique(gq5), AttrKind::On);
        lemma_collect_one(Attr::Unique(gq5), AttrKind::Unique);
        assert(defaults_of(attrs@) =~= Seq::<String>::empty());
        assert(ons_of(attrs@) =~= Seq::<String>::empty());
        assert(uniques_of(attrs@) =~= seq![gq5]);
        assert(gq5@.len() == 6);
        assert(quoted(gq5@));
        assert(cb_attrs_valid(attrs@));
        assert(gq5@.subrange(1, gq5@.len() - 1) =~= "init"@);
    }
    let on_init_event = Callback::add("on_init".to_owned(), "window".to_owned(), &attrs)?;
    callbacks.push(on_init_event);

    let o6 = "UserEvent::Close".to_owned();
    let ghost go6 = o6;
    let mut attrs: Vec<Attr> = Vec::new();
    attrs.push(Attr::On(o6));
    proof {
        assert(attrs@ =~= seq![Attr::On(go6)]);
        lemma_collect_one(Attr::On(go6), AttrKind::Default);
        lemma_collect_one(Attr::On(go6), AttrKind::On);
        lemma_collect_one(Attr::On(go6), AttrKind::Unique);
        assert(defaults_of(attrs@) =~= Seq::<String>::empty());
        assert(ons_of(attrs@) =~= seq![go6]);
        assert(uniques_of(attrs@) =~= Seq::<String>::empty());
        assert(cb_attrs_valid(attrs@));
    }
    let on_exit_event = Callback::add("on_exit".to_owned(), "window".to_owned(), &attrs)?;
    callbacks.push(on_exit_event);

    proof {
        assert forall|i2: int| 0 <= i2 < callbacks@.len()
            implies ((#[trigger] callbacks@[i2].unique)@ == Seq::<char>::empty()
                || callbacks@[i2].unique@ == "init"@) by {
            if i2 == 1 {
                assert(callbacks@[1].unique@ == "init"@);
            } else {
                assert(callbacks@[i2].unique@ == Seq::<char>::empty());
            }
        }
    }

    Ok((data, callbacks))
}

} // verus!
