//! Cached registry listings: parsing, search and lookup.
//!
//! A registry is a named listing of installable plugins, cached as one
//! document per registry.  Search is a case-insensitive substring match on
//! name, description and tags; lookup by name takes the first match in the
//! order the caller enumerates the cache.

use vstd::prelude::*;
use crate::codec::{doc_of_text, parse_text};
use crate::doc::{dv, tbl_get, DocV, DocValue, ents_view, arr_view, lemma_arr_view, table_get};
use crate::errors::CoreError;
use crate::manifest::{field_str, opt_str_field_ok, str_arr_field_ok, str_arr_field, osv, strs_view, ParseFailure};
use crate::strutil::{chars_contain, chars_of, has_prefix, has_sub, lower_of, lowercase, str_concat, str_eq, str_starts_with};

verus! {

/// One plugin entry of a registry listing.
#[derive(Debug, Clone)]
pub struct RegistryEntry {
    pub name: String,
    pub version: Option<String>,
    pub description: Option<String>,
    pub source: Option<String>,
    pub path: Option<String>,
    pub language: Option<String>,
    pub entry_type: Option<String>,
    pub tags: Vec<String>,
}

/// Spec shape of [`RegistryEntry`].
pub struct EntryV {
    pub name: Seq<char>,
    pub version: Option<Seq<char>>,
    pub description: Option<Seq<char>>,
    pub source: Option<Seq<char>>,
    pub path: Option<Seq<char>>,
    pub language: Option<Seq<char>>,
    pub entry_type: Option<Seq<char>>,
    pub tags: Seq<Seq<char>>,
}

impl View for RegistryEntry {
    type V = EntryV;

    open spec fn view(&self) -> EntryV {
        EntryV {
            name: self.name@,
            version: osv(self.version),
            description: osv(self.description),
            source: osv(self.source),
            path: osv(self.path),
            language: osv(self.language),
            entry_type: osv(self.entry_type),
            tags: strs_view(self.tags@),
        }
    }
}

/// A copy of an optional string.
pub(crate) fn dup_opt(o: &Option<String>) -> (r: Option<String>)
    ensures
        osv(r) == osv(*o),
{
    match o {
        Some(s) => Some(s.clone()),
        None => None,
    }
}

/// A copy of a vector of strings.
pub(crate) fn dup_strs(v: &Vec<String>) -> (r: Vec<String>)
    ensures
        strs_view(r@) == strs_view(v@),
{
    let n = v.len();
    let mut out: Vec<String> = Vec::new();
    let mut i: usize = 0;
    while i < n
        invariant
            n == v@.len(),
            i <= n,
            out@.len() == i,
            forall|j: int| 0 <= j < i ==> out@[j]@ == v@[j]@,
        decreases n - i,
    {
        out.push(v[i].clone());
        i = i + 1;
    }
    proof {
        assert(strs_view(out@) =~= strs_view(v@));
    }
    out
}

impl RegistryEntry {
    /// A copy of the entry.
    pub fn duplicate(&self) -> (r: RegistryEntry)
        ensures
            r@ == self@,
    {
        RegistryEntry {
            name: self.name.clone(),
            version: dup_opt(&self.version),
            description: dup_opt(&self.description),
            source: dup_opt(&self.source),
            path: dup_opt(&self.path),
            language: dup_opt(&self.language),
            entry_type: dup_opt(&self.entry_type),
            tags: dup_strs(&self.tags),
        }
    }
}

/// A named, ordered listing of plugin entries.
#[derive(Debug, Clone)]
pub struct RegistryListing {
    pub name: String,
    pub entries: Vec<RegistryEntry>,
}

/// Spec shape of [`RegistryListing`].
pub struct ListingV {
    pub name: Seq<char>,
    pub entries: Seq<EntryV>,
}

/// The spec value of a sequence of entries.
pub open spec fn entries_v(v: Seq<RegistryEntry>) -> Seq<EntryV> {
    Seq::new(v.len(), |i: int| v[i]@)
}

impl View for RegistryListing {
    type V = ListingV;

    open spec fn view(&self) -> ListingV {
        ListingV { name: self.name@, entries: entries_v(self.entries@) }
    }
}

/// The spec value of a sequence of listings.
pub open spec fn listings_v(v: Seq<RegistryListing>) -> Seq<ListingV> {
    Seq::new(v.len(), |i: int| v[i]@)
}

// ---------------------------------------------------------------------------
// Parsing a listing document
// ---------------------------------------------------------------------------

/// Parsing one plugin entry of a listing.
pub open spec fn spec_parse_entry(d: DocV) -> Option<EntryV> {
    match d {
        DocV::Table(t) => if field_str(t, "name"@) is Some && opt_str_field_ok(t, "version"@)
            && opt_str_field_ok(t, "description"@) && opt_str_field_ok(t, "source"@) && opt_str_field_ok(
            t,
            "path"@,
        ) && opt_str_field_ok(t, "language"@) && opt_str_field_ok(t, "type"@) && str_arr_field_ok(
            t,
            "tags"@,
        ) {
            Some(EntryV {
                name: field_str(t, "name"@)->0,
                version: field_str(t, "version"@),
                description: field_str(t, "description"@),
                source: field_str(t, "source"@),
                path: field_str(t, "path"@),
                language: field_str(t, "language"@),
                entry_type: field_str(t, "type"@),
                tags: str_arr_field(t, "tags"@),
            })
        } else {
            None
        },
        _ => None,
    }
}

/// Parsing the entry array of a listing, in order.
pub open spec fn spec_parse_entry_list(a: Seq<DocV>) -> Option<Seq<EntryV>>
    decreases a.len(),
{
    if a.len() == 0 {
        Some(Seq::empty())
    } else {
        match spec_parse_entry_list(a.drop_last()) {
            None => None,
            Some(rest) => match spec_parse_entry(a.last()) {
                Some(e) => Some(rest.push(e)),
                None => None,
            },
        }
    }
}

/// Parsing a whole listing document: a `registry` section with the name, and
/// an optional `plugins` array of entries.
pub open spec fn spec_parse_listing(d: DocV) -> Result<ListingV, Seq<char>> {
    match d {
        DocV::Table(t) => match tbl_get(t, "registry"@) {
            Some(DocV::Table(rt)) => match field_str(rt, "name"@) {
                Some(nm) => match tbl_get(t, "plugins"@) {
                    None => Ok(ListingV { name: nm, entries: Seq::empty() }),
                    Some(DocV::Arr(a)) => match spec_parse_entry_list(a) {
                        Some(es) => Ok(ListingV { name: nm, entries: es }),
                        None => Err("plugins"@),
                    },
                    Some(_) => Err("plugins"@),
                },
                None => Err("registry.name"@),
            },
            _ => Err("registry"@),
        },
        _ => Err("document"@),
    }
}

/// Parses one plugin entry of a listing.
fn parse_entry(d: &DocValue) -> (r: Option<RegistryEntry>)
    ensures
        match r {
            Some(e) => spec_parse_entry(d@) == Some(e@),
            None => spec_parse_entry(d@) is None,
        },
{
    match d {
        DocValue::Table(t) => {
            let name = match crate::manifest::read_str_field(t, "name") {
                Some(s) => s,
                None => {
                    return None;
                },
            };
            let version = match crate::manifest::read_opt_str_field(t, "version") {
                Ok(o) => o,
                Err(_) => {
                    return None;
                },
            };
            let description = match crate::manifest::read_opt_str_field(t, "description") {
                Ok(o) => o,
                Err(_) => {
                    return None;
                },
            };
            let source = match crate::manifest::read_opt_str_field(t, "source") {
                Ok(o) => o,
                Err(_) => {
                    return None;
                },
            };
            let path = match crate::manifest::read_opt_str_field(t, "path") {
                Ok(o) => o,
                Err(_) => {
                    return None;
                },
            };
            let language = match crate::manifest::read_opt_str_field(t, "language") {
                Ok(o) => o,
                Err(_) => {
                    return None;
                },
            };
            let entry_type = match crate::manifest::read_opt_str_field(t, "type") {
                Ok(o) => o,
                Err(_) => {
                    return None;
                },
            };
            let tags = match crate::manifest::read_str_arr_field(t, "tags") {
                Ok(v) => v,
                Err(_) => {
                    return None;
                },
            };
            Some(RegistryEntry { name, version, description, source, path, language, entry_type, tags })
        },
        _ => None,
    }
}

/// Parses the entry array of a listing.
fn parse_entry_list(a: &Vec<DocValue>) -> (r: Option<Vec<RegistryEntry>>)
    ensures
        match r {
            Some(v) => spec_parse_entry_list(arr_view(a@)) == Some(entries_v(v@)),
            None => spec_parse_entry_list(arr_view(a@)) is None,
        },
{
    let ghost av = arr_view(a@);
    proof {
        lemma_arr_view(a@);
    }
    let n = a.len();
    let mut out: Vec<RegistryEntry> = Vec::new();
    let mut i: usize = 0;
    proof {
        assert(av.subrange(0, 0) =~= Seq::empty());
        assert(entries_v(out@) =~= Seq::empty());
    }
    while i < n
        invariant
            n == a@.len(),
            i <= n,
            out@.len() == i,
            av == arr_view(a@),
            av.len() == n,
            forall|j: int| 0 <= j < n ==> av[j] == dv(a@[j]),
            spec_parse_entry_list(av.subrange(0, i as int)) == Some(entries_v(out@)),
        decreases n - i,
    {
        let ghost pre = av.subrange(0, i as int);
        match parse_entry(&a[i]) {
            Some(e) => {
                let ghost evv = e@;
                let ghost prev = out@;
                out.push(e);
                proof {
                    let post = av.subrange(0, i + 1 as int);
                    assert(post.drop_last() =~= pre);
                    assert(post.last() == av[i as int]);
                    assert(entries_v(out@) =~= entries_v(prev).push(evv));
                }
            },
            None => {
                proof {
                    lemma_parse_entry_list_none(av, i as int);
                }
                return None;
            },
        }
        i = i + 1;
    }
    proof {
        assert(av.subrange(0, n as int) =~= av);
    }
    Some(out)
}

/// A rejected entry anywhere in the array rejects the array.
proof fn lemma_parse_entry_list_none(a: Seq<DocV>, i: int)
    requires
        0 <= i < a.len(),
        spec_parse_entry(a[i]) is None,
    ensures
        spec_parse_entry_list(a) is None,
    decreases a.len(),
{
    if i == a.len() - 1 {
        assert(a.last() == a[i]);
    } else {
        assert(a.drop_last()[i] == a[i]);
        lemma_parse_entry_list_none(a.drop_last(), i);
    }
}

/// Parses a listing document.
pub fn parse_listing_doc(d: &DocValue) -> (r: Result<RegistryListing, ParseFailure>)
    ensures
        match r {
            Ok(l) => spec_parse_listing(d@) == Ok::<ListingV, Seq<char>>(l@),
            Err(f) => spec_parse_listing(d@) == Err::<ListingV, Seq<char>>(f@),
        },
{
    let t = match d {
        DocValue::Table(t) => t,
        _ => {
            return Err(ParseFailure { field: String::from_str("document") });
        },
    };
    let name = match table_get(t, "registry") {
        Some(v) => match v {
            DocValue::Table(rt) => match crate::manifest::read_str_field(rt, "name") {
                Some(nm) => nm,
                None => {
                    return Err(ParseFailure { field: String::from_str("registry.name") });
                },
            },
            _ => {
                return Err(ParseFailure { field: String::from_str("registry") });
            },
        },
        None => {
            return Err(ParseFailure { field: String::from_str("registry") });
        },
    };
    let entries = match table_get(t, "plugins") {
        None => {
            let v: Vec<RegistryEntry> = Vec::new();
            proof {
                assert(entries_v(v@) =~= Seq::empty());
            }
            v
        },
        Some(v) => match v {
            DocValue::Arr(a) => match parse_entry_list(a) {
                Some(es) => es,
                None => {
                    return Err(ParseFailure { field: String::from_str("plugins") });
                },
            },
            _ => {
                return Err(ParseFailure { field: String::from_str("plugins") });
            },
        },
    };
    Ok(RegistryListing { name, entries })
}

/// Parses a listing from cached document text.
pub fn parse_listing_text(content: &str) -> (r: Result<RegistryListing, CoreError>)
    ensures
        match doc_of_text(content@) {
            None => r matches Err(e) && e@ == (crate::errors::ErrorV::InvalidInput {
                context: "registry document"@,
            }),
            Some(dm) => match spec_parse_listing(dm) {
                Ok(l) => r matches Ok(rl) && rl@ == l,
                Err(f) => r matches Err(e) && e@ == (crate::errors::ErrorV::InvalidInput { context: f }),
            },
        },
{
    let d = match parse_text(content) {
        Some(d) => d,
        None => {
            return Err(CoreError::InvalidInput { context: String::from_str("registry document") });
        },
    };
    match parse_listing_doc(&d) {
        Ok(l) => Ok(l),
        Err(f) => Err(CoreError::InvalidInput { context: f.field }),
    }
}

// ---------------------------------------------------------------------------
// Fetching listings into the cache
// ---------------------------------------------------------------------------

/// The user agent every registry fetch sends.
pub const USER_AGENT: &'static str = "paii/0.1.0";

/// Spec shape of [`FetchMethod`].
pub enum FetchMethodV {
    LocalFile { path: Seq<char> },
    Http { url: Seq<char> },
    Unsupported,
}

/// How a registry source is fetched.
#[derive(Debug, Clone)]
pub enum FetchMethod {
    /// Copy a local file into the cache.
    LocalFile { path: String },
    /// Fetch over HTTP, with the fixed user agent, requiring a success
    /// status.
    Http { url: String },
    /// An address scheme the tool does not fetch.
    Unsupported,
}

impl View for FetchMethod {
    type V = FetchMethodV;

    open spec fn view(&self) -> FetchMethodV {
        match self {
            FetchMethod::LocalFile { path } => FetchMethodV::LocalFile { path: path@ },
            FetchMethod::Http { url } => FetchMethodV::Http { url: url@ },
            FetchMethod::Unsupported => FetchMethodV::Unsupported,
        }
    }
}

/// How a registry source address is fetched: a `file://` address or a path
/// starting with `/` or `.` is a local file (the `file://` prefix removed);
/// an `http://` or `https://` address is fetched over the network; anything
/// else is unsupported.
pub open spec fn spec_fetch_method(url: Seq<char>) -> FetchMethodV {
    if has_prefix(url, "file://"@) {
        FetchMethodV::LocalFile { path: url.subrange("file://"@.len() as int, url.len() as int) }
    } else if url.len() > 0 && (url[0] == '/' || url[0] == '.') {
        FetchMethodV::LocalFile { path: url }
    } else if has_prefix(url, "http://"@) || has_prefix(url, "https://"@) {
        FetchMethodV::Http { url }
    } else {
        FetchMethodV::Unsupported
    }
}

/// Classifies a registry source address.
pub fn classify_fetch(url: &str) -> (r: FetchMethod)
    ensures
        r@ == spec_fetch_method(url@),
{
    proof {
        reveal_strlit("file://");
    }
    if str_starts_with(url, "file://") {
        let n = url.unicode_len();
        let path = url.substring_char(7, n);
        FetchMethod::LocalFile { path: String::from_str(path) }
    } else if url.unicode_len() > 0 && (url.get_char(0) == '/' || url.get_char(0) == '.') {
        FetchMethod::LocalFile { path: String::from_str(url) }
    } else if str_starts_with(url, "http://") || str_starts_with(url, "https://") {
        FetchMethod::Http { url: String::from_str(url) }
    } else {
        FetchMethod::Unsupported
    }
}

/// The cache document of a registry, relative to the registries root.
pub fn cache_file_name(registry: &str) -> (r: String)
    ensures
        r@ == registry@ + ".toml"@,
{
    str_concat(registry, ".toml")
}

/// The outcome of a registry fetch over HTTP: only a 200 status succeeds,
/// with the body passed through verbatim; any other status is a network
/// failure naming the address.
pub fn http_fetch_outcome(url: &str, status: u16, body: String) -> (r: Result<String, CoreError>)
    ensures
        status == 200 ==> (r matches Ok(b) && b == body),
        status != 200 ==> (r matches Err(e) && e@ == (crate::errors::ErrorV::NetworkFailure {
            context: url@,
        })),
{
    if status == 200 {
        Ok(body)
    } else {
        Err(CoreError::NetworkFailure { context: String::from_str(url) })
    }
}

// ---------------------------------------------------------------------------
// Search
// ---------------------------------------------------------------------------

/// Whether an entry matches a folded query: a case-insensitive substring
/// match on the name, the description or any tag.
pub open spec fn entry_matches(e: EntryV, q: Seq<char>) -> bool {
    has_sub(lower_of(e.name), q) || (e.description is Some && has_sub(lower_of(e.description->0), q))
        || exists|i: int| 0 <= i < e.tags.len() && has_sub(lower_of(e.tags[i]), q)
}

/// The matches of a query among one listing's entries, in order, each paired
/// with the listing's name.
pub open spec fn matches_of(name: Seq<char>, es: Seq<EntryV>, q: Seq<char>) -> Seq<(Seq<char>, EntryV)>
    decreases es.len(),
{
    if es.len() == 0 {
        Seq::empty()
    } else {
        matches_of(name, es.drop_last(), q) + (if entry_matches(es.last(), q) {
            seq![(name, es.last())]
        } else {
            Seq::empty()
        })
    }
}

/// The matches of a query across cached listings, in enumeration order.
pub open spec fn spec_search(ls: Seq<ListingV>, q: Seq<char>) -> Seq<(Seq<char>, EntryV)>
    decreases ls.len(),
{
    if ls.len() == 0 {
        Seq::empty()
    } else {
        spec_search(ls.drop_last(), q) + matches_of(ls.last().name, ls.last().entries, q)
    }
}

/// The folded characters of a string.
fn folded_chars(s: &str) -> (v: Vec<char>)
    ensures
        v@ == lower_of(s@),
{
    let low = lowercase(s);
    chars_of(low.as_str())
}

/// Whether an entry matches a folded query.
fn entry_matches_exec(e: &RegistryEntry, q_low: &Vec<char>) -> (r: bool)
    ensures
        r == entry_matches(e@, q_low@),
{
    let name_low = folded_chars(e.name.as_str());
    if chars_contain(&name_low, q_low) {
        return true;
    }
    match &e.description {
        Some(d) => {
            let d_low = folded_chars(d.as_str());
            if chars_contain(&d_low, q_low) {
                return true;
            }
        },
        None => {},
    }
    let n = e.tags.len();
    let mut i: usize = 0;
    while i < n
        invariant
            n == e.tags@.len(),
            i <= n,
            forall|j: int| 0 <= j < i ==> !has_sub(lower_of(e@.tags[j]), q_low@),
        decreases n - i,
    {
        let t_low = folded_chars(e.tags[i].as_str());
        if chars_contain(&t_low, q_low) {
            assert(has_sub(lower_of(e@.tags[i as int]), q_low@));
            return true;
        }
        i = i + 1;
    }
    false
}

/// The spec value of search result pairs.
pub open spec fn results_v(v: Seq<(String, RegistryEntry)>) -> Seq<(Seq<char>, EntryV)> {
    Seq::new(v.len(), |i: int| (v[i].0@, v[i].1@))
}

/// Case-insensitive search across cached listings: returns each matching
/// entry paired with the name of the registry it came from, in enumeration
/// order.
pub fn search_listings(ls: &Vec<RegistryListing>, query: &str) -> (r: Vec<(String, RegistryEntry)>)
    ensures
        results_v(r@) == spec_search(listings_v(ls@), lower_of(query@)),
{
    let ghost q = lower_of(query@);
    let ghost lsv = listings_v(ls@);
    let q_low = folded_chars(query);
    let n = ls.len();
    let mut out: Vec<(String, RegistryEntry)> = Vec::new();
    let mut i: usize = 0;
    proof {
        assert(lsv.subrange(0, 0) =~= Seq::empty());
        assert(results_v(out@) =~= Seq::empty());
    }
    while i < n
        invariant
            n == ls@.len(),
            i <= n,
            q == lower_of(query@),
            q_low@ == q,
            lsv == listings_v(ls@),
            lsv.len() == n,
            forall|j: int| 0 <= j < n ==> lsv[j] == ls@[j]@,
            results_v(out@) == spec_search(lsv.subrange(0, i as int), q),
        decreases n - i,
    {
        let ghost pre = lsv.subrange(0, i as int);
        let m = ls[i].entries.len();
        let ghost esv = lsv[i as int].entries;
        proof {
            assert(esv =~= entries_v(ls@[i as int].entries@));
        }
        let mut k: usize = 0;
        proof {
            assert(esv.subrange(0, 0) =~= Seq::empty());
            assert(matches_of(lsv[i as int].name, esv.subrange(0, 0), q) =~= Seq::empty());
            assert(results_v(out@) + Seq::empty() =~= results_v(out@));
        }
        let ghost base = results_v(out@);
        while k < m
            invariant
                m == ls@[i as int].entries@.len(),
                k <= m,
                i < n,
                n == ls@.len(),
                q == lower_of(query@),
                q_low@ == q,
                lsv == listings_v(ls@),
                lsv.len() == n,
                forall|j: int| 0 <= j < n ==> lsv[j] == ls@[j]@,
                esv == lsv[i as int].entries,
                esv.len() == m,
                forall|j: int| 0 <= j < m ==> esv[j] == ls@[i as int].entries@[j]@,
                base == spec_search(lsv.subrange(0, i as int), q),
                results_v(out@) == base + matches_of(lsv[i as int].name, esv.subrange(0, k as int), q),
            decreases m - k,
        {
            let ghost epre = esv.subrange(0, k as int);
            let ghost mid = results_v(out@);
            if entry_matches_exec(&ls[i].entries[k], &q_low) {
                out.push((ls[i].name.clone(), ls[i].entries[k].duplicate()));
            }
            proof {
                let epost = esv.subrange(0, k + 1 as int);
                assert(epost.drop_last() =~= epre);
                assert(epost.last() == esv[k as int]);
                if entry_matches(esv[k as int], q) {
                    assert(results_v(out@) =~= mid + seq![(lsv[i as int].name, esv[k as int])]);
                } else {
                    assert(results_v(out@) =~= mid + Seq::<(Seq<char>, EntryV)>::empty());
                }
                assert(results_v(out@) =~= base + (matches_of(lsv[i as int].name, epre, q) + (
                if entry_matches(esv[k as int], q) {
                    seq![(lsv[i as int].name, esv[k as int])]
                } else {
                    Seq::<(Seq<char>, EntryV)>::empty()
                })));
            }
            k = k + 1;
        }
        proof {
            assert(esv.subrange(0, m as int) =~= esv);
            let post = lsv.subrange(0, i + 1 as int);
            assert(post.drop_last() =~= pre);
            assert(post.last() == lsv[i as int]);
        }
        i = i + 1;
    }
    proof {
        assert(lsv.subrange(0, n as int) =~= lsv);
    }
    out
}

/// The search law: a pair is among the results exactly when some cached
/// listing holds a matching entry, paired with that listing's name.
pub proof fn lemma_search_exact(ls: Seq<ListingV>, q: Seq<char>, p: (Seq<char>, EntryV))
    ensures
        spec_search(ls, q).contains(p) <==> exists|a: int, b: int|
            0 <= a < ls.len() && 0 <= b < ls[a].entries.len() && p == (ls[a].name, ls[a].entries[b])
                && entry_matches(ls[a].entries[b], q),
    decreases ls.len(),
{
    if ls.len() == 0 {
    } else {
        lemma_search_exact(ls.drop_last(), q, p);
        lemma_matches_of_contains(ls.last().name, ls.last().entries, q, p);
        let whole = spec_search(ls, q);
        let front = spec_search(ls.drop_last(), q);
        let back = matches_of(ls.last().name, ls.last().entries, q);
        assert(whole == front + back);
        assert(whole.contains(p) <==> front.contains(p) || back.contains(p)) by {
            if whole.contains(p) {
                let i = choose|i: int| 0 <= i < whole.len() && whole[i] == p;
                if i < front.len() {
                    assert(front[i] == p);
                } else {
                    assert(back[i - front.len()] == p);
                }
            }
            if front.contains(p) {
                let i = choose|i: int| 0 <= i < front.len() && front[i] == p;
                assert(whole[i] == p);
            }
            if back.contains(p) {
                let i = choose|i: int| 0 <= i < back.len() && back[i] == p;
                assert(whole[front.len() + i] == p);
            }
        }
        if spec_search(ls, q).contains(p) {
            if front.contains(p) {
                let (a, b) = choose|a: int, b: int|
                    0 <= a < ls.drop_last().len() && 0 <= b < ls.drop_last()[a].entries.len() && p == (
                    ls.drop_last()[a].name,
                    ls.drop_last()[a].entries[b],
                ) && entry_matches(ls.drop_last()[a].entries[b], q);
                assert(ls[a] == ls.drop_last()[a]);
                assert(0 <= a < ls.len() && 0 <= b < ls[a].entries.len() && p == (
                    ls[a].name,
                    ls[a].entries[b],
                ) && entry_matches(ls[a].entries[b], q));
            } else {
                let b = choose|b: int|
                    0 <= b < ls.last().entries.len() && p == (ls.last().name, ls.last().entries[b])
                        && entry_matches(ls.last().entries[b], q);
                let a = ls.len() - 1;
                assert(ls[a] == ls.last());
                assert(0 <= a < ls.len() && 0 <= b < ls[a].entries.len() && p == (
                    ls[a].name,
                    ls[a].entries[b],
                ) && entry_matches(ls[a].entries[b], q));
            }
        }
        if exists|a: int, b: int|
            0 <= a < ls.len() && 0 <= b < ls[a].entries.len() && p == (ls[a].name, ls[a].entries[b])
                && entry_matches(ls[a].entries[b], q) {
            let (a, b) = choose|a: int, b: int|
                0 <= a < ls.len() && 0 <= b < ls[a].entries.len() && p == (ls[a].name, ls[a].entries[b])
                    && entry_matches(ls[a].entries[b], q);
            if a < ls.len() - 1 {
                assert(ls.drop_last()[a] == ls[a]);
                assert(front.contains(p));
            } else {
                assert(ls.last() == ls[a]);
                assert(back.contains(p));
            }
        }
    }
}

/// A pair is among one listing's matches exactly when the listing holds a
/// matching entry and the pair carries the listing's name.
proof fn lemma_matches_of_contains(name: Seq<char>, es: Seq<EntryV>, q: Seq<char>, p: (Seq<char>, EntryV))
    ensures
        matches_of(name, es, q).contains(p) <==> exists|b: int|
            0 <= b < es.len() && p == (name, es[b]) && entry_matches(es[b], q),
    decreases es.len(),
{
    if es.len() == 0 {
    } else {
        lemma_matches_of_contains(name, es.drop_last(), q, p);
        let whole = matches_of(name, es, q);
        let front = matches_of(name, es.drop_last(), q);
        let back: Seq<(Seq<char>, EntryV)> = if entry_matches(es.last(), q) {
            seq![(name, es.last())]
        } else {
            Seq::empty()
        };
        assert(whole == front + back);
        assert(whole.contains(p) <==> front.contains(p) || back.contains(p)) by {
            if whole.contains(p) {
                let i = choose|i: int| 0 <= i < whole.len() && whole[i] == p;
                if i < front.len() {
                    assert(front[i] == p);
                } else {
                    assert(back[i - front.len()] == p);
                }
            }
            if front.contains(p) {
                let i = choose|i: int| 0 <= i < front.len() && front[i] == p;
                assert(whole[i] == p);
            }
            if back.contains(p) {
                let i = choose|i: int| 0 <= i < back.len() && back[i] == p;
                assert(whole[front.len() + i] == p);
            }
        }
        if whole.contains(p) {
            if front.contains(p) {
                let b = choose|b: int|
                    0 <= b < es.drop_last().len() && p == (name, es.drop_last()[b]) && entry_matches(
                        es.drop_last()[b],
                        q,
                    );
                assert(es[b] == es.drop_last()[b]);
                assert(0 <= b < es.len() && p == (name, es[b]) && entry_matches(es[b], q));
            } else {
                assert(back.len() == 1 && back[0] == p);
                assert(es[es.len() - 1] == es.last());
                assert(p == (name, es[es.len() - 1]) && entry_matches(es[es.len() - 1], q));
            }
        }
        if exists|b: int| 0 <= b < es.len() && p == (name, es[b]) && entry_matches(es[b], q) {
            let b = choose|b: int| 0 <= b < es.len() && p == (name, es[b]) && entry_matches(es[b], q);
            if b < es.len() - 1 {
                assert(es.drop_last()[b] == es[b]);
                assert(front.contains(p));
            } else {
                assert(es.last() == es[b]);
                assert(back[0] == p);
                assert(back.contains(p));
            }
        }
    }
}

// ---------------------------------------------------------------------------
// Lookup by name
// ---------------------------------------------------------------------------

/// First entry with the name among a listing's entries, from position `i`.
pub open spec fn find_entry_from(es: Seq<EntryV>, name: Seq<char>, i: int) -> Option<EntryV>
    decreases es.len() - i,
{
    if i < 0 || i >= es.len() {
        None
    } else if es[i].name == name {
        Some(es[i])
    } else {
        find_entry_from(es, name, i + 1)
    }
}

/// First entry with the name across listings, from listing `i` on: the
/// documented tie-break is that the first match in enumeration order wins.
pub open spec fn spec_find_from(ls: Seq<ListingV>, name: Seq<char>, i: int) -> Option<(Seq<char>, EntryV)>
    decreases ls.len() - i,
{
    if i < 0 || i >= ls.len() {
        None
    } else {
        match find_entry_from(ls[i].entries, name, 0) {
            Some(e) => Some((ls[i].name, e)),
            None => spec_find_from(ls, name, i + 1),
        }
    }
}

/// First entry with the name across listings, in enumeration order.
pub open spec fn spec_find(ls: Seq<ListingV>, name: Seq<char>) -> Option<(Seq<char>, EntryV)> {
    spec_find_from(ls, name, 0)
}

/// Finds the first entry with the given name across cached listings; the
/// first match in enumeration order wins.
pub fn find_in_listings(ls: &Vec<RegistryListing>, name: &str) -> (r: Option<(String, RegistryEntry)>)
    ensures
        match r {
            Some(p) => spec_find(listings_v(ls@), name@) == Some((p.0@, p.1@)),
            None => spec_find(listings_v(ls@), name@) is None,
        },
{
    let ghost lsv = listings_v(ls@);
    let n = ls.len();
    let mut i: usize = 0;
    while i < n
        invariant
            n == ls@.len(),
            i <= n,
            lsv == listings_v(ls@),
            lsv.len() == n,
            forall|j: int| 0 <= j < n ==> lsv[j] == ls@[j]@,
            spec_find_from(lsv, name@, 0) == spec_find_from(lsv, name@, i as int),
        decreases n - i,
    {
        let m = ls[i].entries.len();
        let ghost esv = lsv[i as int].entries;
        proof {
            assert(esv =~= entries_v(ls@[i as int].entries@));
        }
        let mut k: usize = 0;
        while k < m
            invariant
                m == ls@[i as int].entries@.len(),
                k <= m,
                i < n,
                n == ls@.len(),
                lsv == listings_v(ls@),
                lsv.len() == n,
                forall|j: int| 0 <= j < n ==> lsv[j] == ls@[j]@,
                esv == lsv[i as int].entries,
                esv.len() == m,
                forall|j: int| 0 <= j < m ==> esv[j] == ls@[i as int].entries@[j]@,
                spec_find_from(lsv, name@, 0) == spec_find_from(lsv, name@, i as int),
                find_entry_from(esv, name@, 0) == find_entry_from(esv, name@, k as int),
            decreases m - k,
        {
            if str_eq(ls[i].entries[k].name.as_str(), name) {
                proof {
                    assert(find_entry_from(esv, name@, k as int) == Some(esv[k as int]));
                    assert(spec_find_from(lsv, name@, i as int) == Some((lsv[i as int].name, esv[k as int])));
                    assert(lsv[i as int].name == ls@[i as int].name@);
                    assert(esv[k as int] == ls@[i as int].entries@[k as int]@);
                }
                return Some((ls[i].name.clone(), ls[i].entries[k].duplicate()));
            }
            assert(esv[k as int].name != name@);
            k = k + 1;
        }
        assert(find_entry_from(esv, name@, m as int) is None);
        i = i + 1;
    }
    None
}

// ---------------------------------------------------------------------------
// Walking the cached files
// ---------------------------------------------------------------------------

/// The spec value of cached files: each registry's name with its document
/// text.
pub open spec fn files_v(v: Seq<(String, String)>) -> Seq<(Seq<char>, Seq<char>)> {
    Seq::new(v.len(), |i: int| (v[i].0@, v[i].1@))
}

/// The listing a cached text denotes, when it denotes one.
pub open spec fn spec_listing_of(text: Seq<char>) -> Option<ListingV> {
    match doc_of_text(text) {
        None => None,
        Some(d) => match spec_parse_listing(d) {
            Ok(l) => Some(l),
            Err(_) => None,
        },
    }
}

/// Sifting the cache: the listings of the files that parse, in their order,
/// and the registry names of those that do not.
pub open spec fn spec_sift_cache(files: Seq<(Seq<char>, Seq<char>)>) -> (Seq<ListingV>, Seq<Seq<char>>)
    decreases files.len(),
{
    if files.len() == 0 {
        (Seq::empty(), Seq::empty())
    } else {
        let rest = spec_sift_cache(files.drop_last());
        match spec_listing_of(files.last().1) {
            Some(l) => (rest.0.push(l), rest.1),
            None => (rest.0, rest.1.push(files.last().0)),
        }
    }
}

/// Parses the cached listing files, as search and update read them: a
/// corrupt cache file is skipped, never fatal; its registry name is
/// returned among the skipped, for a warning.
pub fn parse_cached_listings(files: &Vec<(String, String)>) -> (r: (Vec<RegistryListing>, Vec<String>))
    ensures
        listings_v(r.0@) == spec_sift_cache(files_v(files@)).0,
        strs_view(r.1@) == spec_sift_cache(files_v(files@)).1,
{
    let ghost fv = files_v(files@);
    let n = files.len();
    let mut out: Vec<RegistryListing> = Vec::new();
    let mut skipped: Vec<String> = Vec::new();
    let mut i: usize = 0;
    proof {
        assert(fv.subrange(0, 0) =~= Seq::empty());
        assert(listings_v(out@) =~= Seq::empty());
        assert(strs_view(skipped@) =~= Seq::empty());
    }
    while i < n
        invariant
            n == files@.len(),
            i <= n,
            fv == files_v(files@),
            fv.len() == n,
            forall|j: int| 0 <= j < n ==> fv[j] == (files@[j].0@, files@[j].1@),
            listings_v(out@) == spec_sift_cache(fv.subrange(0, i as int)).0,
            strs_view(skipped@) == spec_sift_cache(fv.subrange(0, i as int)).1,
        decreases n - i,
    {
        let ghost pre = fv.subrange(0, i as int);
        match parse_listing_text(files[i].1.as_str()) {
            Ok(l) => {
                let ghost lv = l@;
                let ghost prev = listings_v(out@);
                out.push(l);
                proof {
                    let post = fv.subrange(0, i + 1 as int);
                    assert(post.drop_last() =~= pre);
                    assert(post.last() == fv[i as int]);
                    assert(listings_v(out@) =~= prev.push(lv));
                }
            },
            Err(_) => {
                let ghost prev = strs_view(skipped@);
                skipped.push(files[i].0.clone());
                proof {
                    let post = fv.subrange(0, i + 1 as int);
                    assert(post.drop_last() =~= pre);
                    assert(post.last() == fv[i as int]);
                    assert(strs_view(skipped@) =~= prev.push(files@[i as int].0@));
                }
            },
        }
        i = i + 1;
    }
    proof {
        assert(fv.subrange(0, n as int) =~= fv);
    }
    (out, skipped)
}

/// First entry with the plugin name across the cached files, each parsed
/// only when reached: a corrupt file before the match is an error naming
/// its registry, and files after the match are never read — the strictness
/// a registry-mediated install applies to the cache.
pub open spec fn spec_cache_lookup(files: Seq<(Seq<char>, Seq<char>)>, name: Seq<char>, i: int) -> Result<
    Option<(Seq<char>, EntryV)>,
    Seq<char>,
>
    decreases files.len() - i,
{
    if i < 0 || i >= files.len() {
        Ok(None)
    } else {
        match spec_listing_of(files[i].1) {
            None => Err(files[i].0),
            Some(l) => match find_entry_from(l.entries, name, 0) {
                Some(e) => Ok(Some((files[i].0, e))),
                None => spec_cache_lookup(files, name, i + 1),
            },
        }
    }
}

/// Looks a plugin name up across the cached files, parsing each file only
/// when reached; a file that does not parse fails the lookup, naming the
/// registry.
pub fn cache_lookup(files: &Vec<(String, String)>, name: &str) -> (r: Result<
    Option<(String, RegistryEntry)>,
    CoreError,
>)
    ensures
        match r {
            Ok(o) => match o {
                Some(p) => spec_cache_lookup(files_v(files@), name@, 0) == Ok::<
                    Option<(Seq<char>, EntryV)>,
                    Seq<char>,
                >(Some((p.0@, p.1@))),
                None => spec_cache_lookup(files_v(files@), name@, 0) == Ok::<
                    Option<(Seq<char>, EntryV)>,
                    Seq<char>,
                >(None),
            },
            Err(e) => spec_cache_lookup(files_v(files@), name@, 0) matches Err(reg) && e@ == (
            crate::errors::ErrorV::InvalidInput { context: reg }),
        },
{
    let ghost fv = files_v(files@);
    let n = files.len();
    let mut i: usize = 0;
    while i < n
        invariant
            n == files@.len(),
            i <= n,
            fv == files_v(files@),
            fv.len() == n,
            forall|j: int| 0 <= j < n ==> fv[j] == (files@[j].0@, files@[j].1@),
            spec_cache_lookup(fv, name@, 0) == spec_cache_lookup(fv, name@, i as int),
        decreases n - i,
    {
        let listing = match parse_listing_text(files[i].1.as_str()) {
            Ok(l) => l,
            Err(_) => {
                return Err(CoreError::InvalidInput { context: files[i].0.clone() });
            },
        };
        let ghost lv = listing@;
        let ghost esv = lv.entries;
        proof {
            assert(esv =~= entries_v(listing.entries@));
        }
        let m = listing.entries.len();
        let mut k: usize = 0;
        while k < m
            invariant
                m == listing.entries@.len(),
                k <= m,
                i < n,
                n == files@.len(),
                fv == files_v(files@),
                fv.len() == n,
                forall|j: int| 0 <= j < n ==> fv[j] == (files@[j].0@, files@[j].1@),
                lv == listing@,
                esv == lv.entries,
                esv.len() == m,
                forall|j: int| 0 <= j < m ==> esv[j] == listing.entries@[j]@,
                spec_listing_of(fv[i as int].1) == Some(lv),
                spec_cache_lookup(fv, name@, 0) == spec_cache_lookup(fv, name@, i as int),
                find_entry_from(esv, name@, 0) == find_entry_from(esv, name@, k as int),
            decreases m - k,
        {
            if str_eq(listing.entries[k].name.as_str(), name) {
                proof {
                    assert(find_entry_from(esv, name@, k as int) == Some(esv[k as int]));
                    assert(spec_cache_lookup(fv, name@, i as int) == Ok::<
                        Option<(Seq<char>, EntryV)>,
                        Seq<char>,
                    >(Some((fv[i as int].0, esv[k as int]))));
                }
                return Ok(Some((files[i].0.clone(), listing.entries[k].duplicate())));
            }
            assert(esv[k as int].name != name@);
            k = k + 1;
        }
        proof {
            assert(find_entry_from(esv, name@, m as int) is None);
        }
        i = i + 1;
    }
    Ok(None)
}

} // verus!
