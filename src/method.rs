//! Extraction methods and the registry that assigns one to each domain.

use vstd::prelude::*;

verus! {

/// How the articles of one domain are extracted.
#[derive(Debug, Clone, PartialEq, Eq)]
pub enum ExtractionMethod {
    /// The general-purpose readability heuristic.
    Auto,
    /// Four selectors, one per field of the article.
    Manual { title: String, body: String, authors: String, date: String },
}

/// The mathematical value of an [`ExtractionMethod`].
pub ghost enum MethodView {
    Auto,
    Manual { title: Seq<char>, body: Seq<char>, authors: Seq<char>, date: Seq<char> },
}

impl View for ExtractionMethod {
    type V = MethodView;

    open spec fn view(&self) -> MethodView {
        match self {
            ExtractionMethod::Auto => MethodView::Auto,
            ExtractionMethod::Manual { title, body, authors, date } => MethodView::Manual {
                title: title@,
                body: body@,
                authors: authors@,
                date: date@,
            },
        }
    }
}

impl ExtractionMethod {
    /// A copy of this method.
    pub fn duplicate(&self) -> (r: ExtractionMethod)
        ensures
            r@ == self@,
    {
        match self {
            ExtractionMethod::Auto => ExtractionMethod::Auto,
            ExtractionMethod::Manual { title, body, authors, date } => ExtractionMethod::Manual {
                title: title.clone(),
                body: body.clone(),
                authors: authors.clone(),
                date: date.clone(),
            },
        }
    }
}

/// One key of a registry entry's table, with its value when that value is text.
#[derive(Debug, Clone, PartialEq, Eq)]
pub struct RawField {
    pub key: String,
    /// `None` when the value is not a string.
    pub text: Option<String>,
}

/// One entry of the registry document as read: a domain and, when the
/// value is a table, its fields in document order.
#[derive(Debug, Clone, PartialEq, Eq)]
pub struct RawEntry {
    pub domain: String,
    /// `None` when the value is not a table.
    pub table: Option<Vec<RawField>>,
}

/// Why a registry document was refused; `entry` is the index of the offending entry.
#[derive(Debug, Clone, Copy, PartialEq, Eq, Structural)]
pub enum FormatError {
    /// The entry's value is not a table.
    NotATable { entry: usize },
    /// The table holds some of the four selector fields but not all, or one is not text.
    Shape { entry: usize },
    /// The domain occurs twice.
    DuplicateDomain { entry: usize },
}

/// The selector keys of a manual method.
pub open spec fn title_key() -> Seq<char> {
    "title"@
}

pub open spec fn body_key() -> Seq<char> {
    "body"@
}

pub open spec fn authors_key() -> Seq<char> {
    "authors"@
}

pub open spec fn date_key() -> Seq<char> {
    "date"@
}

/// The value of the first field named `key`: `None` when there is none,
/// `Some(None)` when its value is not text.
pub open spec fn field_value(fields: Seq<RawField>, key: Seq<char>) -> Option<Option<Seq<char>>>
    decreases fields.len(),
{
    if fields.len() == 0 {
        None
    } else if fields[0].key@ == key {
        Some(crate::article::opt_view(fields[0].text))
    } else {
        field_value(fields.drop_first(), key)
    }
}

/// The method that a table describes: none of the four selector keys gives
/// `Auto`, all four with text values give `Manual`, anything else is no method.
pub open spec fn method_of_fields(fields: Seq<RawField>) -> Option<MethodView> {
    let t = field_value(fields, title_key());
    let b = field_value(fields, body_key());
    let a = field_value(fields, authors_key());
    let d = field_value(fields, date_key());
    match (t, b, a, d) {
        (None, None, None, None) => Some(MethodView::Auto),
        (Some(Some(title)), Some(Some(body)), Some(Some(authors)), Some(Some(date))) => Some(
            MethodView::Manual { title, body, authors, date },
        ),
        _ => None,
    }
}

/// The first value of the field named `key` among `fields`.
fn find_field(fields: &Vec<RawField>, key: &String) -> (r: Option<Option<String>>)
    ensures
        match r {
            None => field_value(fields@, key@) is None,
            Some(v) => field_value(fields@, key@) == Some(crate::article::opt_view(v)),
        },
{
    let mut i: usize = 0;
    assert(fields@.subrange(0, fields.len() as int) =~= fields@);
    while i < fields.len()
        invariant
            i <= fields.len(),
            field_value(fields@.subrange(i as int, fields.len() as int), key@) == field_value(
                fields@,
                key@,
            ),
        decreases fields.len() - i,
    {
        assert(fields@.subrange(i as int, fields.len() as int).drop_first() =~= fields@.subrange(
            i + 1,
            fields.len() as int,
        ));
        if fields[i].key == *key {
            return Some(fields[i].text.clone());
        }
        i += 1;
    }
    None
}

/// The method described by a table's fields, as `method_of_fields` states it.
fn method_from_fields(fields: &Vec<RawField>) -> (r: Option<ExtractionMethod>)
    ensures
        match r {
            None => method_of_fields(fields@) is None,
            Some(m) => method_of_fields(fields@) == Some(m@),
        },
{
    let t = find_field(fields, &"title".to_owned());
    let b = find_field(fields, &"body".to_owned());
    let a = find_field(fields, &"authors".to_owned());
    let d = find_field(fields, &"date".to_owned());
    proof {
        reveal_strlit("title");
        reveal_strlit("body");
        reveal_strlit("authors");
        reveal_strlit("date");
    }
    match (t, b, a, d) {
        (None, None, None, None) => Some(ExtractionMethod::Auto),
        (Some(Some(title)), Some(Some(body)), Some(Some(authors)), Some(Some(date))) => Some(
            ExtractionMethod::Manual { title, body, authors, date },
        ),
        _ => None,
    }
}

/// The registry that the first `n` entries describe, or the first fault among them.
pub open spec fn load_prefix(entries: Seq<RawEntry>, n: nat) -> Result<
    Map<Seq<char>, MethodView>,
    FormatError,
>
    recommends
        n <= entries.len(),
    decreases n,
{
    if n == 0 {
        Ok(Map::empty())
    } else {
        match load_prefix(entries, (n - 1) as nat) {
            Err(e) => Err(e),
            Ok(m) => {
                let entry = entries[n - 1];
                let idx = (n - 1) as usize;
                match entry.table {
                    None => Err(FormatError::NotATable { entry: idx }),
                    Some(fields) => match method_of_fields(fields@) {
                        None => Err(FormatError::Shape { entry: idx }),
                        Some(method) => if m.contains_key(entry.domain@) {
                            Err(FormatError::DuplicateDomain { entry: idx })
                        } else {
                            Ok(m.insert(entry.domain@, method))
                        },
                    },
                }
            },
        }
    }
}

/// The registry that a whole document describes.
pub open spec fn load_entries(entries: Seq<RawEntry>) -> Result<
    Map<Seq<char>, MethodView>,
    FormatError,
> {
    load_prefix(entries, entries.len())
}

/// Once a prefix of the entries fails, every longer prefix fails the same way.
proof fn lemma_error_persists(entries: Seq<RawEntry>, n: nat, m: nat)
    requires
        n <= m,
        load_prefix(entries, n) is Err,
    ensures
        load_prefix(entries, m) == load_prefix(entries, n),
    decreases m - n,
{
    if n < m {
        lemma_error_persists(entries, n, (m - 1) as nat);
    }
}

/// The method a registry gives a domain: its entry, or `Auto` when it has none.
pub open spec fn lookup_in(registry: Map<Seq<char>, MethodView>, domain: Seq<char>) -> MethodView {
    if registry.contains_key(domain) {
        registry[domain]
    } else {
        MethodView::Auto
    }
}

/// The map that a list of (domain, method) pairs describes.
pub open spec fn map_of(configs: Seq<(String, ExtractionMethod)>) -> Map<Seq<char>, MethodView>
    decreases configs.len(),
{
    if configs.len() == 0 {
        Map::empty()
    } else {
        map_of(configs.drop_last()).insert(configs.last().0@, configs.last().1@)
    }
}

/// No two pairs share a domain.
pub open spec fn domains_unique(configs: Seq<(String, ExtractionMethod)>) -> bool {
    forall|i: int, j: int|
        0 <= i < j < configs.len() ==> configs[i].0@ != configs[j].0@
}

/// A domain is a key of `map_of` exactly when some pair names it, and then
/// the map holds that pair's method.
proof fn lemma_map_of(configs: Seq<(String, ExtractionMethod)>)
    requires
        domains_unique(configs),
    ensures
        forall|i: int|
            0 <= i < configs.len() ==> #[trigger] map_of(configs).contains_key(configs[i].0@)
                && map_of(configs)[configs[i].0@] == configs[i].1@,
        forall|k: Seq<char>|
            map_of(configs).contains_key(k) ==> exists|i: int|
                0 <= i < configs.len() && #[trigger] configs[i].0@ == k,
    decreases configs.len(),
{
    if configs.len() > 0 {
        let rest = configs.drop_last();
        assert(domains_unique(rest));
        lemma_map_of(rest);
        assert forall|i: int| 0 <= i < configs.len() implies #[trigger] map_of(
            configs,
        ).contains_key(configs[i].0@) && map_of(configs)[configs[i].0@] == configs[i].1@ by {
            if i < configs.len() - 1 {
                assert(rest[i] == configs[i]);
                assert(map_of(rest).contains_key(rest[i].0@));
                assert(configs[i].0@ != configs[configs.len() - 1].0@);
            }
        }
        assert forall|k: Seq<char>| map_of(configs).contains_key(k) implies exists|i: int|
            0 <= i < configs.len() && #[trigger] configs[i].0@ == k by {
            if k != configs.last().0@ {
                assert(map_of(rest).contains_key(k));
                let i = choose|i: int| 0 <= i < rest.len() && #[trigger] rest[i].0@ == k;
                assert(rest[i] == configs[i]);
            } else {
                assert(configs[configs.len() - 1].0@ == k);
            }
        }
    }
}

/// The registry: which extraction method each configured domain uses.
/// Domains are matched exactly; every other domain uses `Auto`.
#[derive(Debug, Clone)]
pub struct Extractor {
    configs: Vec<(String, ExtractionMethod)>,
}

impl Extractor {
    /// Each domain is configured at most once.
    pub closed spec fn wf(&self) -> bool {
        domains_unique(self.configs@)
    }

    /// The registry as a map from domain to method.
    pub closed spec fn registry(&self) -> Map<Seq<char>, MethodView> {
        map_of(self.configs@)
    }

    /// A registry with no entry: every domain uses `Auto`.
    pub fn new() -> (r: Extractor)
        ensures
            r.wf(),
            r.registry() == Map::<Seq<char>, MethodView>::empty(),
    {
        Extractor { configs: Vec::new() }
    }

    /// Builds the registry from the entries of its document, inferring each
    /// entry's method from the shape of its table. Fails on the first entry
    /// whose value is not a table, whose table matches neither shape, or whose
    /// domain was seen before.
    pub fn from_entries(entries: Vec<RawEntry>) -> (r: Result<Extractor, FormatError>)
        ensures
            match r {
                Ok(x) => x.wf() && load_entries(entries@) == Ok::<_, FormatError>(x.registry()),
                Err(e) => load_entries(entries@) == Err::<Map<Seq<char>, MethodView>, _>(e),
            },
    {
        let mut configs: Vec<(String, ExtractionMethod)> = Vec::new();
        let mut i: usize = 0;
        while i < entries.len()
            invariant
                i <= entries.len(),
                domains_unique(configs@),
                load_prefix(entries@, i as nat) == Ok::<_, FormatError>(map_of(configs@)),
            decreases entries.len() - i,
        {
            let entry = &entries[i];
            let method = match &entry.table {
                None => {
                    proof {
                        lemma_error_persists(entries@, (i + 1) as nat, entries@.len());
                    }
                    return Err(FormatError::NotATable { entry: i });
                },
                Some(fields) => match method_from_fields(fields) {
                    None => {
                        proof {
                            lemma_error_persists(entries@, (i + 1) as nat, entries@.len());
                        }
                        return Err(FormatError::Shape { entry: i });
                    },
                    Some(m) => m,
                },
            };
            assert(entry.table matches Some(fields) && method_of_fields(fields@) == Some(method@));
            let mut j: usize = 0;
            while j < configs.len()
                invariant
                    i < entries.len(),
                    entry == entries@[i as int],
                    entry.table matches Some(fields) && method_of_fields(fields@) == Some(method@),
                    domains_unique(configs@),
                    load_prefix(entries@, i as nat) == Ok::<_, FormatError>(map_of(configs@)),
                    j <= configs.len(),
                    forall|k: int| 0 <= k < j ==> configs@[k].0@ != entry.domain@,
                decreases configs.len() - j,
            {
                if configs[j].0 == entry.domain {
                    proof {
                        lemma_map_of(configs@);
                        lemma_error_persists(entries@, (i + 1) as nat, entries@.len());
                    }
                    return Err(FormatError::DuplicateDomain { entry: i });
                }
                j += 1;
            }
            proof {
                lemma_map_of(configs@);
            }
            let ghost prev = configs@;
            configs.push((entry.domain.clone(), method));
            assert(configs@.drop_last() =~= prev);
            i += 1;
        }
        assert(entries@.len() == i);
        Ok(Extractor { configs })
    }

    /// The method for `domain`: its entry, or `Auto` when the registry has none.
    /// Never fails.
    pub fn lookup(&self, domain: &str) -> (r: ExtractionMethod)
        requires
            self.wf(),
        ensures
            r@ == lookup_in(self.registry(), domain@),
    {
        let wanted = domain.to_owned();
        let mut i: usize = 0;
        while i < self.configs.len()
            invariant
                i <= self.configs.len(),
                self.wf(),
                wanted@ == domain@,
                forall|k: int| 0 <= k < i ==> self.configs@[k].0@ != domain@,
            decreases self.configs.len() - i,
        {
            if self.configs[i].0 == wanted {
                proof {
                    lemma_map_of(self.configs@);
                    assert(self.registry().contains_key(self.configs@[i as int].0@));
                }
                return self.configs[i].1.duplicate();
            }
            i += 1;
        }
        proof {
            lemma_map_of(self.configs@);
        }
        ExtractionMethod::Auto
    }
}

/// Every entry of a document that loads is in the registry with the method
/// its table describes, and the registry holds no other domain.
proof fn lemma_loaded(entries: Seq<RawEntry>, n: nat)
    requires
        n <= entries.len(),
        load_prefix(entries, n) is Ok,
    ensures
        forall|i: int|
            0 <= i < n ==> {
                let m = load_prefix(entries, n)->Ok_0;
                &&& #[trigger] entries[i].table is Some
                &&& m.contains_key(entries[i].domain@)
                &&& method_of_fields(entries[i].table->Some_0@) == Some(m[entries[i].domain@])
            },
        forall|k: Seq<char>|
            #[trigger] load_prefix(entries, n)->Ok_0.contains_key(k) ==> exists|i: int|
                0 <= i < n && #[trigger] entries[i].domain@ == k,
    decreases n,
{
    if n > 0 {
        lemma_loaded(entries, (n - 1) as nat);
        let prev = load_prefix(entries, (n - 1) as nat)->Ok_0;
        let m = load_prefix(entries, n)->Ok_0;
        assert forall|k: Seq<char>| #[trigger] m.contains_key(k) implies exists|i: int|
            0 <= i < n && #[trigger] entries[i].domain@ == k by {
            if k != entries[n - 1].domain@ {
                assert(prev.contains_key(k));
                let i = choose|i: int| 0 <= i < n - 1 && #[trigger] entries[i].domain@ == k;
            }
        }
        assert forall|i: int| 0 <= i < n implies {
            &&& #[trigger] entries[i].table is Some
            &&& m.contains_key(entries[i].domain@)
            &&& method_of_fields(entries[i].table->Some_0@) == Some(m[entries[i].domain@])
        } by {
            if i < n - 1 {
                assert(entries[i].table is Some);
                assert(prev.contains_key(entries[i].domain@));
            }
        }
    }
}

/// In a registry loaded from a document, an entry whose table has none of the
/// four selector fields gives its domain the `Auto` method.
pub proof fn lemma_selectorless_entry_is_auto(entries: Seq<RawEntry>, i: int)
    requires
        load_entries(entries) is Ok,
        0 <= i < entries.len(),
        entries[i].table matches Some(fields) && field_value(fields@, title_key()) is None
            && field_value(fields@, body_key()) is None && field_value(fields@, authors_key())
            is None && field_value(fields@, date_key()) is None,
    ensures
        lookup_in(load_entries(entries)->Ok_0, entries[i].domain@) == MethodView::Auto,
{
    lemma_loaded(entries, entries.len());
    assert(entries[i].table is Some);
}

/// In a registry loaded from a document, an entry whose table holds the four
/// selector fields as text gives its domain the `Manual` method with those
/// four strings, unchanged.
pub proof fn lemma_full_entry_is_manual(
    entries: Seq<RawEntry>,
    i: int,
    title: Seq<char>,
    body: Seq<char>,
    authors: Seq<char>,
    date: Seq<char>,
)
    requires
        load_entries(entries) is Ok,
        0 <= i < entries.len(),
        entries[i].table matches Some(fields) && field_value(fields@, title_key()) == Some(
            Some(title),
        ) && field_value(fields@, body_key()) == Some(Some(body)) && field_value(
            fields@,
            authors_key(),
        ) == Some(Some(authors)) && field_value(fields@, date_key()) == Some(Some(date)),
    ensures
        lookup_in(load_entries(entries)->Ok_0, entries[i].domain@) == (MethodView::Manual {
            title,
            body,
            authors,
            date,
        }),
{
    lemma_loaded(entries, entries.len());
    assert(entries[i].table is Some);
}

/// In a registry loaded from a document, a domain that no entry names gets
/// the `Auto` method.
pub proof fn lemma_absent_domain_is_auto(entries: Seq<RawEntry>, domain: Seq<char>)
    requires
        load_entries(entries) is Ok,
        forall|i: int| 0 <= i < entries.len() ==> #[trigger] entries[i].domain@ != domain,
    ensures
        lookup_in(load_entries(entries)->Ok_0, domain) == MethodView::Auto,
{
    lemma_loaded(entries, entries.len());
}

} // verus!
