//! Parsing and rendering of search responses.
//!
//! The search endpoint answers with JSON: an object whose `results` list
//! carries one entry per hit, each with a `Name` and `Version` string and an
//! optional `Description`.  serde_json does the JSON parsing, behind one
//! trusted step whose outcome — the list's fields, projected to plain
//! strings — is named as a function of the body text alone.  The rules of
//! the shape (`Name` and `Version` required, `Description` optional) and the
//! rendering of entries are verified on those plain values.

use vstd::prelude::*;
use crate::aur::Aur;
use crate::errors::AurError;

verus! {

/// serde_json's parse error.
#[verifier::external_type_specification]
#[verifier::external_body]
pub struct ExJsonError(serde_json::Error);

/// One element of the results list before the required-field rules are
/// applied: each field's string content, where the element is an object
/// holding that key with a string value.
pub struct RawHit {
    pub name: Option<String>,
    pub version: Option<String>,
    pub description: Option<String>,
}

/// A raw hit, abstractly.
pub struct RawHitView {
    pub name: Option<Seq<char>>,
    pub version: Option<Seq<char>>,
    pub description: Option<Seq<char>>,
}

impl View for RawHit {
    type V = RawHitView;

    open spec fn view(&self) -> RawHitView {
        RawHitView {
            name: match self.name {
                Some(s) => Some(s@),
                None => None,
            },
            version: match self.version {
                Some(s) => Some(s@),
                None => None,
            },
            description: match self.description {
                Some(s) => Some(s@),
                None => None,
            },
        }
    }
}

/// Whether serde_json accepts a piece of text as JSON.  Acceptance depends
/// on the text alone.
pub uninterp spec fn json_accepted(s: Seq<char>) -> bool;

/// The results list of an accepted body, projected field by field: None
/// where the accepted JSON holds no `results` array; otherwise one raw hit
/// per element, each field the string under its key, absent where the key
/// is missing or its value is no string.  A function of the text alone.
pub uninterp spec fn raw_results_of(s: Seq<char>) -> Option<Seq<RawHitView>>;

/// The model of what the trusted parse step hands back.
pub open spec fn raw_opt_model(h: Option<Vec<RawHit>>) -> Option<Seq<RawHitView>> {
    match h {
        Some(v) => Some(v@.map_values(|x: RawHit| x@)),
        None => None,
    }
}

/// Relies on serde_json::from_str and serde_json::Value's get, as_array and
/// as_str: parsing succeeds exactly on the texts serde_json accepts, and
/// the hits handed back are the body's `results` list projected field by
/// field — both functions of the text alone.
#[verifier::external_body]
fn parse_raw_results(s: &str) -> (r: Result<Option<Vec<RawHit>>, serde_json::Error>)
    ensures
        r is Ok <==> json_accepted(s@),
        r matches Ok(h) ==> raw_opt_model(h) == raw_results_of(s@),
{
    let v: serde_json::Value = match serde_json::from_str(s) {
        Ok(v) => v,
        Err(e) => return Err(e),
    };
    let arr = match v.get("results").and_then(serde_json::Value::as_array) {
        Some(a) => a,
        None => return Ok(None),
    };
    let hits: Vec<RawHit> = arr.iter().map(|e| RawHit {
        name: e.get("Name").and_then(serde_json::Value::as_str).map(str::to_owned),
        version: e.get("Version").and_then(serde_json::Value::as_str).map(str::to_owned),
        description: e.get("Description").and_then(serde_json::Value::as_str).map(str::to_owned),
    }).collect();
    Ok(Some(hits))
}

/// Relies on serde_json::Error's display form: one line naming what went
/// wrong and where.
#[verifier::external_body]
fn json_error_detail(e: &serde_json::Error) -> (r: String) {
    e.to_string()
}

/// One search hit.
pub struct SearchEntry {
    pub name: String,
    pub version: String,
    pub description: Option<String>,
}

/// A search hit, abstractly.
pub struct SearchEntryView {
    pub name: Seq<char>,
    pub version: Seq<char>,
    pub description: Option<Seq<char>>,
}

impl View for SearchEntry {
    type V = SearchEntryView;

    open spec fn view(&self) -> SearchEntryView {
        SearchEntryView {
            name: self.name@,
            version: self.version@,
            description: match self.description {
                Some(s) => Some(s@),
                None => None,
            },
        }
    }
}

/// The parsed body of a search response.
pub struct SearchResult {
    pub entries: Vec<SearchEntry>,
}

/// A raw hit that carries its required fields.
pub open spec fn hit_complete(h: RawHitView) -> bool {
    h.name is Some && h.version is Some
}

/// Whether every hit of the list carries its required Name and Version.
pub open spec fn all_hits_complete(hits: Seq<RawHitView>) -> bool {
    forall|i: int| 0 <= i < hits.len() ==> hit_complete(#[trigger] hits[i])
}

/// The entry a complete raw hit projects to.
pub open spec fn project_hit(h: RawHitView) -> SearchEntryView {
    SearchEntryView {
        name: match h.name {
            Some(n) => n,
            None => Seq::empty(),
        },
        version: match h.version {
            Some(v) => v,
            None => Seq::empty(),
        },
        description: h.description,
    }
}

/// The entries a results list projects to, hit by hit, in its order.
pub open spec fn entries_of_hits(hits: Seq<RawHitView>) -> Seq<SearchEntryView> {
    hits.map_values(|h: RawHitView| project_hit(h))
}

/// A sequence of entries, abstractly.
pub open spec fn entries_view(entries: Seq<SearchEntry>) -> Seq<SearchEntryView> {
    entries.map_values(|e: SearchEntry| e@)
}

/// The display form of one search hit: `aur/<name> <version>`, and the
/// description indented on a second line when there is one.
pub open spec fn render_entry_spec(e: SearchEntry) -> Seq<char> {
    let head = "aur/"@ + e.name@ + " "@ + e.version@;
    match e.description {
        Some(d) => head + "\n    "@ + d@,
        None => head,
    }
}

impl SearchEntry {
    /// The display form of this hit.
    pub fn render(&self) -> (r: String)
        ensures
            r@ == render_entry_spec(*self),
    {
        let mut s = String::from_str("aur/");
        s.append(self.name.as_str());
        s.append(" ");
        s.append(self.version.as_str());
        match &self.description {
            Some(d) => {
                s.append("\n    ");
                s.append(d.as_str());
            },
            None => {},
        }
        s
    }
}

impl Aur {
    /// Parse the body of a search response.  It succeeds exactly on text
    /// serde_json accepts whose `results` list is there and whose every hit
    /// carries its `Name` and `Version`; the entries are then exactly that
    /// list's fields, in the server's order.  Everything else — rejected
    /// text, a missing or malformed list, a hit without its required
    /// fields — is a parse error.
    pub fn search_package(&self, body: &str) -> (r: Result<SearchResult, AurError>)
        ensures
            r is Ok <==> (json_accepted(body@) && (raw_results_of(body@) matches Some(hits)
                && all_hits_complete(hits))),
            r matches Ok(sr) ==> (raw_results_of(body@) matches Some(hits) && entries_view(
                sr.entries@,
            ) == entries_of_hits(hits)),
            r matches Err(e) ==> e matches AurError::ParseError { .. },
    {
        let raw = match parse_raw_results(body) {
            Ok(raw) => raw,
            Err(e) => {
                return Err(AurError::ParseError { detail: json_error_detail(&e) });
            },
        };
        let hits = match raw {
            Some(h) => h,
            None => {
                return Err(
                    AurError::ParseError {
                        detail: String::from_str("search response without a results list"),
                    },
                );
            },
        };
        let ghost hview = hits@.map_values(|h: RawHit| h@);
        let mut entries: Vec<SearchEntry> = Vec::new();
        let mut i: usize = 0;
        while i < hits.len()
            invariant
                i <= hits.len(),
                hview == hits@.map_values(|h: RawHit| h@),
                raw_results_of(body@) == Some(hview),
                json_accepted(body@),
                forall|k: int| 0 <= k < i ==> hit_complete(#[trigger] hview[k]),
                entries_view(entries@) == entries_of_hits(hview.take(i as int)),
            decreases hits.len() - i,
        {
            let h = &hits[i];
            proof {
                assert(hview[i as int] == hits@[i as int]@);
            }
            let name = match &h.name {
                Some(s) => s.clone(),
                None => {
                    proof {
                        assert(!hit_complete(hview[i as int]));
                    }
                    return Err(
                        AurError::ParseError {
                            detail: String::from_str("search entry without a Name string"),
                        },
                    );
                },
            };
            let version = match &h.version {
                Some(s) => s.clone(),
                None => {
                    proof {
                        assert(!hit_complete(hview[i as int]));
                    }
                    return Err(
                        AurError::ParseError {
                            detail: String::from_str("search entry without a Version string"),
                        },
                    );
                },
            };
            let description = match &h.description {
                Some(s) => Some(s.clone()),
                None => None,
            };
            let entry = SearchEntry { name, version, description };
            proof {
                assert(entry@ == project_hit(hview[i as int]));
            }
            let ghost pre = entries@;
            entries.push(entry);
            proof {
                assert(hview.take(i as int + 1) =~= hview.take(i as int).push(hview[i as int]));
                assert(entries@ == pre.push(entry));
                assert(hview.len() == hits@.len());
                assert(entries_view(pre).len() == pre.len());
                assert(pre.len() == i as int);
                assert forall|j: int| 0 <= j < i as int + 1 implies entries_view(entries@)[j]
                    == entries_of_hits(hview.take(i as int + 1))[j] by {
                    assert(entries_view(entries@)[j] == entries@[j]@);
                    assert(entries_of_hits(hview.take(i as int + 1))[j] == project_hit(
                        hview.take(i as int + 1)[j],
                    ));
                    if j < i as int {
                        assert(entries@[j] == pre[j]);
                        assert(entries_view(pre)[j] == pre[j]@);
                        assert(entries_view(pre)[j] == entries_of_hits(hview.take(i as int))[j]);
                        assert(entries_of_hits(hview.take(i as int))[j] == project_hit(
                            hview.take(i as int)[j],
                        ));
                    }
                }
                assert(entries_view(entries@) =~= entries_of_hits(hview.take(i as int + 1)));
            }
            i += 1;
        }
        proof {
            assert(hview.take(i as int) =~= hview);
        }
        Ok(SearchResult { entries })
    }
}

} // verus!
