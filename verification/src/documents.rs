//! [`Documents`]: a URI-keyed store of open document text, applying
//! `textDocument/didOpen`/`didChange`/`didClose` for a backend so it does
//! not have to keep its own map and patch incremental edits itself.
//!
//! Incremental edits are patched position-encoding-aware: the store
//! defaults to UTF-16 (the base-spec default) and
//! [`Documents::with_encoding`] adapts it to whatever encoding the server
//! negotiated.

use crate::lsp::base::normalized;
use crate::lsp::{
    DidChangeTextDocumentParams, DidCloseTextDocumentParams, DidOpenTextDocumentParams, Position,
    PositionEncodingKind, TextDocumentContentChangeEvent, Uri,
};
use crate::strings::{concat3, str_eq};
use crate::text::{
    lemma_position_offset_is_char_boundary, offset_character, offset_line,
    offset_to_position_with, position_fits, position_offset, position_to_offset_with,
};
use vstd::prelude::*;
use vstd::string::StringSliceAdditionalSpecFns;
use vstd::utf8::{decode_utf8, encode_utf8};

verus! {

broadcast use vstd::utf8::encode_utf8_decode_utf8;

/// A single open document's current text and metadata.
#[derive(Debug, Clone, PartialEq, Eq)]
pub struct Document {
    /// The document's language identifier (e.g. `"rust"`), as sent on open.
    pub language_id: String,
    /// The document's current version, updated on every change.
    pub version: i32,
    /// The document's current full text.
    pub text: String,
}

/// A document's contents, as values.
pub ghost struct DocumentState {
    /// The language identifier.
    pub language_id: Seq<char>,
    /// The version.
    pub version: i32,
    /// The full text.
    pub text: Seq<char>,
}

impl Document {
    /// The document's contents.
    pub open spec fn state(&self) -> DocumentState {
        DocumentState {
            language_id: self.language_id@,
            version: self.version,
            text: self.text@,
        }
    }
}

/// An equal copy of a document.
fn copy_document(d: &Document) -> (r: Document)
    ensures
        r.state() == d.state(),
{
    Document { language_id: d.language_id.clone(), version: d.version, text: d.text.clone() }
}

/// `text` with one content change applied, reading its range in
/// `encoding`: a change without a range replaces the whole text; a change
/// with a range replaces the bytes between the offsets its two ends
/// resolve to. `None` when the range's end resolves before its start.
pub open spec fn apply_change(
    text: Seq<char>,
    change: TextDocumentContentChangeEvent,
    encoding: PositionEncodingKind,
) -> Option<Seq<char>> {
    match change.range {
        None => Some(change.text@),
        Some(range) => {
            let bytes = encode_utf8(text);
            let start = position_offset(bytes, range.start, encoding);
            let end = position_offset(bytes, range.end, encoding);
            if start <= end {
                Some(
                    decode_utf8(bytes.take(start)) + change.text@ + decode_utf8(
                        bytes.skip(end),
                    ),
                )
            } else {
                None
            }
        },
    }
}

/// `text` with `changes` applied in order; `None` when one of them has a
/// range whose end resolves before its start.
pub open spec fn apply_changes(
    text: Seq<char>,
    changes: Seq<TextDocumentContentChangeEvent>,
    encoding: PositionEncodingKind,
) -> Option<Seq<char>>
    decreases changes.len(),
{
    if changes.len() == 0 {
        Some(text)
    } else {
        match apply_changes(text, changes.drop_last(), encoding) {
            Some(t) => apply_change(t, changes.last(), encoding),
            None => None,
        }
    }
}

/// The key under which a lookup by the string `uri` finds a document: the
/// string itself when a document is stored under it, else its normalized
/// spelling when one is stored under that.
pub open spec fn lookup_key(m: Map<Seq<char>, DocumentState>, uri: Seq<char>) -> Option<
    Seq<char>,
> {
    if m.contains_key(uri) {
        Some(uri)
    } else if m.contains_key(normalized(uri)) {
        Some(normalized(uri))
    } else {
        None
    }
}

/// Whether `params` is a change that applies to an open document: the
/// document is open under its URI and the version is not older than the
/// stored one.
pub open spec fn change_is_current(
    m: Map<Seq<char>, DocumentState>,
    params: DidChangeTextDocumentParams,
) -> bool {
    let key = params.text_document.uri@;
    m.contains_key(key) && params.text_document.version >= m[key].version
}

/// The entries hold each key at most once, and exactly the documents of
/// `contents`.
spec fn entries_match(entries: Seq<(Uri, Document)>, contents: Map<Seq<char>, DocumentState>) -> bool {
    &&& forall|i: int, j: int|
        0 <= i < j < entries.len() ==> (#[trigger] entries[i]).0@ != (#[trigger] entries[j]).0@
    &&& forall|i: int|
        0 <= i < entries.len() ==> #[trigger] contents.contains_key(entries[i].0@)
            && contents[entries[i].0@] == entries[i].1.state()
    &&& forall|k: Seq<char>|
        #[trigger] contents.contains_key(k) ==> exists|i: int|
            0 <= i < entries.len() && #[trigger] entries[i].0@ == k
}

/// Whether every key of a store's map is a URI in normal form (as every
/// [`Uri`] is).
pub open spec fn keys_normal(m: Map<Seq<char>, DocumentState>) -> bool {
    forall|k: Seq<char>| #[trigger] m.contains_key(k) ==> normalized(k) == k
}

/// A store of open documents, keyed by URI.
pub struct Documents {
    entries: Vec<(Uri, Document)>,
    contents: Ghost<Map<Seq<char>, DocumentState>>,
    encoding: PositionEncodingKind,
}

impl Documents {
    /// The open documents, by URI.
    pub closed spec fn view(&self) -> Map<Seq<char>, DocumentState> {
        self.contents@
    }

    /// The encoding in which edit positions are read.
    pub closed spec fn spec_encoding(&self) -> PositionEncodingKind {
        self.encoding
    }

    #[verifier::type_invariant]
    closed spec fn well_formed(self) -> bool {
        entries_match(self.entries@, self.contents@) && keys_normal(self.contents@)
    }

    /// An empty store that reads edit positions in UTF-16 (the base-spec
    /// default).
    pub fn new() -> (r: Self)
        ensures
            keys_normal(r@),
            r@ == Map::<Seq<char>, DocumentState>::empty(),
            r.spec_encoding() == PositionEncodingKind::Utf16,
    {
        Documents::with_encoding(PositionEncodingKind::Utf16)
    }

    /// An empty store for a server that negotiated `encoding`: incremental
    /// edits are patched reading `Position::character` in `encoding`.
    pub fn with_encoding(encoding: PositionEncodingKind) -> (r: Self)
        ensures
            keys_normal(r@),
            r@ == Map::<Seq<char>, DocumentState>::empty(),
            r.spec_encoding() == encoding,
    {
        Documents { entries: Vec::new(), contents: Ghost(Map::empty()), encoding }
    }

    /// The position encoding this store patches incremental edits with.
    pub fn encoding(&self) -> (r: PositionEncodingKind)
        ensures
            keys_normal(self@),
            r == self.spec_encoding(),
    {
        proof {
            use_type_invariant(self);
        }
        self.encoding
    }

    /// Empty the store, handing back its entries as they were.
    fn take_entries(&mut self) -> (r: Vec<(Uri, Document)>)
        ensures
            r@ == old(self).entries@,
            final(self)@ == Map::<Seq<char>, DocumentState>::empty(),
            final(self).spec_encoding() == old(self).spec_encoding(),
    {
        let mut this = Documents {
            entries: Vec::new(),
            contents: Ghost(Map::empty()),
            encoding: self.encoding,
        };
        std::mem::swap(&mut this, self);
        let Documents { entries, contents: _, encoding: _ } = this;
        entries
    }

    /// The position of the entry stored under exactly `key`, if any.
    fn position(&self, key: &str) -> (r: Option<usize>)
        ensures
            match r {
                Some(i) => i < self.entries@.len() && self.entries@[i as int].0@ == key@
                    && self@.contains_key(key@) && self@[key@] == self.entries@[i as int].1.state(),
                None => !self@.contains_key(key@),
            },
    {
        proof {
            use_type_invariant(self);
        }
        let mut i: usize = 0;
        while i < self.entries.len()
            invariant
                i <= self.entries@.len(),
                forall|j: int| 0 <= j < i ==> (#[trigger] self.entries@[j]).0@ != key@,
                forall|j: int|
                    0 <= j < self.entries@.len() ==> #[trigger] self.contents@.contains_key(
                        self.entries@[j].0@,
                    ) && self.contents@[self.entries@[j].0@] == self.entries@[j].1.state(),
            decreases self.entries@.len() - i,
        {
            if str_eq(self.entries[i].0.as_str(), key) {
                proof {
                    assert(self.contents@.contains_key(self.entries@[i as int].0@));
                }
                return Some(i);
            }
            i += 1;
        }
        proof {
            if self@.contains_key(key@) {
                let j = choose|j: int|
                    0 <= j < self.entries@.len() && #[trigger] self.entries@[j].0@ == key@;
                assert(self.entries@[j].0@ != key@);
            }
        }
        None
    }

    /// The position of the entry a lookup by `uri` finds (see
    /// [`lookup_key`]).
    fn find(&self, uri: &str) -> (r: Option<usize>)
        ensures
            match lookup_key(self@, uri@) {
                Some(k) => r matches Some(i) && i < self.entries@.len() && self.entries@[i as int].0@
                    == k && self@[k] == self.entries@[i as int].1.state(),
                None => r is None,
            },
    {
        match self.position(uri) {
            Some(i) => Some(i),
            None => {
                let normalized_uri = Uri::new(uri);
                if str_eq(normalized_uri.as_str(), uri) {
                    None
                } else {
                    self.position(normalized_uri.as_str())
                }
            },
        }
    }

    #[verifier::spinoff_prover]
    /// Put `(uri, document)` into the entries, replacing the entry at
    /// `replace` (which is stored under the same URI) if given.
    fn store(&mut self, uri: Uri, document: Document, replace: Option<usize>) -> (r: Option<
        Document,
    >)
        requires
            normalized(uri@) == uri@,
            match replace {
                Some(i) => i < old(self).entries@.len() && old(self).entries@[i as int].0@ == uri@,
                None => !old(self)@.contains_key(uri@),
            },
        ensures
            final(self)@ == old(self)@.insert(uri@, document.state()),
            final(self).spec_encoding() == old(self).spec_encoding(),
            match replace {
                Some(i) => r matches Some(d) && d.state() == old(self)@[uri@],
                None => r is None,
            },
    {
        proof {
            use_type_invariant(&*self);
        }
        let ghost key = uri@;
        let ghost old_entries = self.entries@;
        let ghost old_contents = self.contents@;
        let ghost new_contents = self.contents@.insert(key, document.state());
        let encoding = self.encoding;
        let mut entries = self.take_entries();
        let previous = match replace {
            Some(i) => {
                let (_, d) = entries.remove(i);
                proof {
                    assert(old_contents.contains_key(old_entries[i as int].0@));
                    assert(d.state() == old_contents[key]);
                }
                Some(d)
            },
            None => None,
        };
        let ghost kept = entries@;
        entries.push((uri, document));
        proof {
            let idx = |j: int|
                match replace {
                    Some(i) => if j < i {
                        j
                    } else {
                        j + 1
                    },
                    None => j,
                };
            assert forall|j: int| 0 <= j < kept.len() implies kept[j] == old_entries[idx(j)]
                && 0 <= idx(j) < old_entries.len() && old_entries[idx(j)].0@ != key by {
                if let Some(i) = replace {
                    assert(old_entries[idx(j)].0@ != old_entries[i as int].0@);
                } else {
                    assert(old_contents.contains_key(old_entries[j].0@));
                }
            }
            assert(entries@ == kept.push((uri, document)));
            assert forall|a: int, b: int|
                0 <= a < b < entries@.len() implies (#[trigger] entries@[a]).0@ != (
            #[trigger] entries@[b]).0@ by {
                assert(entries@[a] == kept[a]);
                if b < kept.len() {
                    assert(entries@[b] == kept[b]);
                    assert(old_entries[idx(a)].0@ != old_entries[idx(b)].0@);
                } else {
                    assert(kept[a] == old_entries[idx(a)]);
                }
            }
            assert forall|j: int| 0 <= j < entries@.len() implies #[trigger]
                new_contents.contains_key(entries@[j].0@) && new_contents[entries@[j].0@]
                == entries@[j].1.state() by {
                if j < kept.len() {
                    assert(entries@[j] == kept[j]);
                    assert(old_contents.contains_key(old_entries[idx(j)].0@));
                }
            }
            assert forall|k: Seq<char>| #[trigger] new_contents.contains_key(k) implies exists|
                j: int,
            | 0 <= j < entries@.len() && #[trigger] entries@[j].0@ == k by {
                if k == key {
                    assert(entries@[kept.len() as int].0@ == k);
                } else {
                    let o = choose|o: int|
                        0 <= o < old_entries.len() && #[trigger] old_entries[o].0@ == k;
                    if let Some(i) = replace {
                        assert(o != i);
                        let j = if o < i {
                            o
                        } else {
                            o - 1
                        };
                        assert(idx(j) == o);
                        assert(entries@[j] == kept[j]);
                        assert(entries@[j].0@ == k);
                    } else {
                        assert(entries@[o] == kept[o]);
                        assert(entries@[o].0@ == k);
                    }
                }
            }
        }
        assert(entries_match(entries@, new_contents));
        assert(keys_normal(new_contents));
        *self = Documents { entries, contents: Ghost(new_contents), encoding };
        previous
    }

    /// Record a newly opened document (`textDocument/didOpen`). Returns the
    /// previously stored document if the URI was already open, so a backend
    /// can detect a client re-opening without closing.
    pub fn did_open(&mut self, params: &DidOpenTextDocumentParams) -> (r: Option<Document>)
        ensures
            keys_normal(final(self)@),
            final(self)@ == old(self)@.insert(
                params.text_document.uri@,
                DocumentState {
                    language_id: params.text_document.language_id@,
                    version: params.text_document.version,
                    text: params.text_document.text@,
                },
            ),
            final(self).spec_encoding() == old(self).spec_encoding(),
            old(self)@.contains_key(params.text_document.uri@) ==> (r matches Some(d) && d.state()
                == old(self)@[params.text_document.uri@]),
            !old(self)@.contains_key(params.text_document.uri@) ==> r is None,
    {
        proof {
            use_type_invariant(&*self);
        }
        let item = &params.text_document;
        let document = Document {
            language_id: item.language_id.clone(),
            version: item.version,
            text: item.text.clone(),
        };
        let at = self.position(item.uri.as_str());
        self.store(item.uri.duplicate(), document, at)
    }

    /// Whether the change `params` can be applied: it is not for an open,
    /// current document, or each of its edits has a range whose end does
    /// not resolve before its start. A change that fails this is outside
    /// what [`did_change`](Self::did_change) accepts.
    pub fn change_applies(&self, params: &DidChangeTextDocumentParams) -> (r: bool)
        ensures
            keys_normal(self@),
            r == (change_is_current(self@, *params) ==> apply_changes(
                self@[params.text_document.uri@].text,
                params.content_changes@,
                self.spec_encoding(),
            ) is Some),
    {
        proof {
            use_type_invariant(self);
        }
        match self.position(params.text_document.uri.as_str()) {
            None => true,
            Some(i) => {
                if params.text_document.version < self.entries[i].1.version {
                    true
                } else {
                    apply_content_changes(
                        self.entries[i].1.text.as_str(),
                        &params.content_changes,
                        self.encoding,
                    ).is_some()
                }
            },
        }
    }

    /// Apply a document change (`textDocument/didChange`), patching in the
    /// full-document or incremental edits in order. Returns `true` if the
    /// change was applied.
    ///
    /// Two kinds of change are ignored (returning `false`): a change for a
    /// document that isn't open, and a change whose version is older than
    /// the stored version, which guards against replayed or reordered
    /// edits.
    pub fn did_change(&mut self, params: &DidChangeTextDocumentParams) -> (r: bool)
        requires
            change_is_current(old(self)@, *params) ==> apply_changes(
                old(self)@[params.text_document.uri@].text,
                params.content_changes@,
                old(self).spec_encoding(),
            ) is Some,
        ensures
            keys_normal(final(self)@),
            r == change_is_current(old(self)@, *params),
            final(self).spec_encoding() == old(self).spec_encoding(),
            r ==> final(self)@ == old(self)@.insert(
                params.text_document.uri@,
                DocumentState {
                    language_id: old(self)@[params.text_document.uri@].language_id,
                    version: params.text_document.version,
                    text: apply_changes(
                        old(self)@[params.text_document.uri@].text,
                        params.content_changes@,
                        old(self).spec_encoding(),
                    )->0,
                },
            ),
            !r ==> final(self)@ == old(self)@,
    {
        proof {
            use_type_invariant(&*self);
        }
        let uri = &params.text_document.uri;
        match self.position(uri.as_str()) {
            None => false,
            Some(i) => {
                if params.text_document.version < self.entries[i].1.version {
                    return false;
                }
                let patched = apply_content_changes(
                    self.entries[i].1.text.as_str(),
                    &params.content_changes,
                    self.encoding,
                );
                match patched {
                    Some(new_text) => {
                        let document = Document {
                            language_id: self.entries[i].1.language_id.clone(),
                            version: params.text_document.version,
                            text: new_text,
                        };
                        self.store(uri.duplicate(), document, Some(i));
                        true
                    },
                    None => false,
                }
            },
        }
    }

    /// Forget a closed document (`textDocument/didClose`), returning it.
    #[verifier::spinoff_prover]
    pub fn did_close(&mut self, params: &DidCloseTextDocumentParams) -> (r: Option<Document>)
        ensures
            keys_normal(final(self)@),
            final(self)@ == old(self)@.remove(params.text_document.uri@),
            final(self).spec_encoding() == old(self).spec_encoding(),
            old(self)@.contains_key(params.text_document.uri@) ==> (r matches Some(d) && d.state()
                == old(self)@[params.text_document.uri@]),
            !old(self)@.contains_key(params.text_document.uri@) ==> r is None,
    {
        proof {
            use_type_invariant(&*self);
        }
        match self.position(params.text_document.uri.as_str()) {
            None => {
                proof {
                    assert(self@.remove(params.text_document.uri@) =~= self@);
                }
                None
            },
            Some(i) => {
                let ghost key = params.text_document.uri@;
                let ghost old_entries = self.entries@;
                let ghost old_contents = self.contents@;
                let ghost new_contents = self.contents@.remove(key);
                let encoding = self.encoding;
                let mut entries = self.take_entries();
                let (_, document) = entries.remove(i);
                proof {
                    assert(entries@ == old_entries.remove(i as int));
                    assert(old_contents.contains_key(old_entries[i as int].0@));
                    assert forall|a: int, b: int|
                        0 <= a < b < entries@.len() implies (#[trigger] entries@[a]).0@ != (
                    #[trigger] entries@[b]).0@ by {
                        let oa = if a < i { a } else { a + 1 };
                        let ob = if b < i { b } else { b + 1 };
                        assert(entries@[a] == old_entries[oa]);
                        assert(entries@[b] == old_entries[ob]);
                        assert(old_entries[oa].0@ != old_entries[ob].0@);
                    }
                    assert forall|k: Seq<char>| #[trigger]
                        new_contents.contains_key(k) implies exists|j: int|
                        0 <= j < entries@.len() && #[trigger] entries@[j].0@ == k by {
                        let o = choose|o: int|
                            0 <= o < old_entries.len() && #[trigger] old_entries[o].0@ == k;
                        if o < i {
                            assert(entries@[o] == old_entries[o]);
                        } else {
                            assert(o != i);
                            assert(entries@[o - 1] == old_entries[o]);
                        }
                    }
                    assert forall|j: int| 0 <= j < entries@.len() implies #[trigger]
                        new_contents.contains_key(entries@[j].0@) && new_contents[entries@[j].0@]
                        == entries@[j].1.state() by {
                        let oj = if j < i { j } else { j + 1 };
                        assert(entries@[j] == old_entries[oj]);
                        assert(old_entries[oj].0@ != old_entries[i as int].0@);
                        assert(old_contents.contains_key(old_entries[oj].0@));
                    }
                }
                assert(entries_match(entries@, new_contents));
                *self = Documents { entries, contents: Ghost(new_contents), encoding };
                Some(document)
            },
        }
    }

    /// A copy of a document's current state, if it's open. A lookup by a
    /// spelling that misses falls back to the URI's normalized spelling.
    pub fn get(&self, uri: &str) -> (r: Option<Document>)
        ensures
            keys_normal(self@),
            match lookup_key(self@, uri@) {
                Some(k) => r matches Some(d) && d.state() == self@[k],
                None => r is None,
            },
    {
        proof {
            use_type_invariant(self);
        }
        match self.find(uri) {
            Some(i) => Some(copy_document(&self.entries[i].1)),
            None => None,
        }
    }

    /// A copy of a document's current text, if it's open.
    pub fn text(&self, uri: &str) -> (r: Option<String>)
        ensures
            keys_normal(self@),
            match lookup_key(self@, uri@) {
                Some(k) => r matches Some(t) && t@ == self@[k].text,
                None => r is None,
            },
    {
        proof {
            use_type_invariant(self);
        }
        match self.find(uri) {
            Some(i) => Some(self.entries[i].1.text.clone()),
            None => None,
        }
    }

    /// The URIs of every open document, each once, in no particular order.
    pub fn uris(&self) -> (r: Vec<Uri>)
        ensures
            keys_normal(self@),
            forall|i: int| 0 <= i < r@.len() ==> #[trigger] self@.contains_key(r@[i]@),
            forall|k: Seq<char>| #[trigger]
                self@.contains_key(k) ==> exists|i: int| 0 <= i < r@.len() && #[trigger] r@[i]@ == k,
            forall|i: int, j: int| 0 <= i < j < r@.len() ==> (#[trigger] r@[i])@ != (#[trigger] r@[j])@,
    {
        proof {
            use_type_invariant(self);
        }
        proof {
            use_type_invariant(self);
        }
        let mut out: Vec<Uri> = Vec::new();
        let mut i: usize = 0;
        while i < self.entries.len()
            invariant
                i <= self.entries@.len(),
                out@.len() == i,
                forall|j: int| 0 <= j < i ==> (#[trigger] out@[j])@ == self.entries@[j].0@,
            decreases self.entries@.len() - i,
        {
            out.push(self.entries[i].0.duplicate());
            i += 1;
        }
        proof {
            assert forall|k: Seq<char>| #[trigger] self@.contains_key(k) implies exists|j: int|
                0 <= j < out@.len() && #[trigger] out@[j]@ == k by {
                let j = choose|j: int|
                    0 <= j < self.entries@.len() && #[trigger] self.entries@[j].0@ == k;
                assert(out@[j]@ == k);
            }
            assert forall|a: int, b: int| 0 <= a < b < out@.len() implies (#[trigger] out@[a])@ != (
            #[trigger] out@[b])@ by {
                assert(self.entries@[a].0@ != self.entries@[b].0@);
            }
        }
        out
    }

    /// How many documents are open.
    pub fn len(&self) -> (r: usize)
        ensures
            keys_normal(self@),
            r == self@.dom().len(),
    {
        proof {
            use_type_invariant(self);
        }
        proof {
            use_type_invariant(self);
            let keys = self.entries@.map_values(|e: (Uri, Document)| e.0@);
            assert(keys.no_duplicates()) by {
                assert forall|a: int, b: int|
                    0 <= a < keys.len() && 0 <= b < keys.len() && a != b implies keys[a]
                    != keys[b] by {
                    if a < b {
                        assert(self.entries@[a].0@ != self.entries@[b].0@);
                    } else {
                        assert(self.entries@[b].0@ != self.entries@[a].0@);
                    }
                }
            }
            assert(self@.dom() =~= keys.to_set()) by {
                assert forall|k: Seq<char>| self@.dom().contains(k) implies keys.to_set().contains(
                    k,
                ) by {
                    let j = choose|j: int|
                        0 <= j < self.entries@.len() && #[trigger] self.entries@[j].0@ == k;
                    assert(keys[j] == k);
                }
                assert forall|k: Seq<char>| keys.to_set().contains(k) implies self@.dom().contains(
                    k,
                ) by {
                    let j = choose|j: int| 0 <= j < keys.len() && keys[j] == k;
                    assert(self@.contains_key(self.entries@[j].0@));
                }
            }
            keys.unique_seq_to_set();
        }
        self.entries.len()
    }

    /// Whether no documents are open.
    pub fn is_empty(&self) -> (r: bool)
        ensures
            keys_normal(self@),
            r == (self@.dom().len() == 0),
    {
        proof {
            use_type_invariant(self);
        }
        self.len() == 0
    }

    /// The byte offset of `position` in an open document, reading the
    /// position in the store's encoding; `None` if the document isn't open.
    /// Out-of-range positions clamp.
    pub fn offset_at(&self, uri: &str, position: Position) -> (r: Option<usize>)
        ensures
            keys_normal(self@),
            match lookup_key(self@, uri@) {
                Some(k) => r == Some(
                    position_offset(encode_utf8(self@[k].text), position, self.spec_encoding())
                        as usize,
                ),
                None => r is None,
            },
    {
        proof {
            use_type_invariant(self);
        }
        match self.find(uri) {
            Some(i) => Some(
                position_to_offset_with(self.entries[i].1.text.as_str(), position, self.encoding),
            ),
            None => None,
        }
    }

    /// The position of the byte offset `offset` in an open document, with
    /// its column in the store's encoding; `None` if the document isn't
    /// open. Out-of-range offsets clamp. Lines and columns are 32-bit, so
    /// the position's line (and a UTF-16 or UTF-32 column) must fit in 32
    /// bits; a UTF-8 column is cast to 32 bits.
    pub fn position_at(&self, uri: &str, offset: usize) -> (r: Option<Position>)
        requires
            lookup_key(self@, uri@) matches Some(k) ==> position_fits(
                encode_utf8(self@[k].text),
                offset as int,
                self.spec_encoding(),
            ),
        ensures
            keys_normal(self@),
            match lookup_key(self@, uri@) {
                Some(k) => r matches Some(p) && p.line == offset_line(
                    encode_utf8(self@[k].text),
                    offset as int,
                ) && p.character == offset_character(
                    encode_utf8(self@[k].text),
                    offset as int,
                    self.spec_encoding(),
                ) as u32,
                None => r is None,
            },
    {
        proof {
            use_type_invariant(self);
        }
        match self.find(uri) {
            Some(i) => {
                let text = self.entries[i].1.text.as_str();
                Some(offset_to_position_with(text, offset, self.encoding))
            },
            None => None,
        }
    }
}

/// Apply `changes` to `text` in order, reading ranges in `encoding`; `None`
/// when an edit's range ends before it starts.
fn apply_content_changes(
    source: &str,
    changes: &Vec<TextDocumentContentChangeEvent>,
    encoding: PositionEncodingKind,
) -> (r: Option<String>)
    ensures
        match apply_changes(source@, changes@, encoding) {
            Some(t) => r matches Some(s) && s@ == t,
            None => r is None,
        },
{
    let ghost source_text = source@;
    let mut text = source.to_owned();
    let mut i: usize = 0;
    proof {
        assert(changes@.take(0) =~= Seq::<TextDocumentContentChangeEvent>::empty());
    }
    while i < changes.len()
        invariant
            i <= changes@.len(),
            source_text == source@,
            apply_changes(source_text, changes@.take(i as int), encoding) == Some(text@),
        decreases changes@.len() - i,
    {
        let change = &changes[i];
        proof {
            assert(changes@.take(i + 1).drop_last() =~= changes@.take(i as int));
            assert(changes@.take(i + 1).last() == changes@[i as int]);
        }
        match change.range {
            None => {
                text = change.text.clone();
            },
            Some(range) => {
                let current = text.as_str();
                let start = position_to_offset_with(current, range.start, encoding);
                let end = position_to_offset_with(current, range.end, encoding);
                if start > end {
                    proof {
                        assert(current.spec_bytes() == encode_utf8(text@));
                        assert(apply_change(text@, changes@[i as int], encoding) is None);
                        assert(apply_changes(source_text, changes@.take(i + 1), encoding) is None);
                        lemma_apply_changes_stuck(source_text, changes@, i as int, encoding);
                    }
                    return None;
                }
                proof {
                    lemma_position_offset_is_char_boundary(current, range.start, encoding);
                    lemma_position_offset_is_char_boundary(current, range.end, encoding);
                }
                let (before, _) = current.split_at(start);
                let (_, after) = current.split_at(end);
                proof {
                    let bytes = encode_utf8(text@);
                    assert(before.spec_bytes() == bytes.take(start as int));
                    assert(after.spec_bytes() == bytes.skip(end as int));
                }
                text = concat3(before, change.text.as_str(), after);
            },
        }
        i += 1;
    }
    proof {
        assert(changes@.take(changes@.len() as int) =~= changes@);
    }
    Some(text)
}

/// Once one edit fails to apply, the whole sequence fails.
proof fn lemma_apply_changes_stuck(
    text: Seq<char>,
    changes: Seq<TextDocumentContentChangeEvent>,
    i: int,
    encoding: PositionEncodingKind,
)
    requires
        0 <= i < changes.len(),
        apply_changes(text, changes.take(i + 1), encoding) is None,
    ensures
        apply_changes(text, changes, encoding) is None,
    decreases changes.len() - i,
{
    if i + 1 < changes.len() {
        assert(changes.drop_last().take(i + 1) =~= changes.take(i + 1));
        lemma_apply_changes_stuck(text, changes.drop_last(), i, encoding);
    } else {
        assert(changes.take(i + 1) =~= changes);
    }
}

/// A document just opened under `uri` is what a lookup by `uri` finds.
pub proof fn lemma_open_then_get(
    m: Map<Seq<char>, DocumentState>,
    uri: Seq<char>,
    document: DocumentState,
)
    ensures
        lookup_key(m.insert(uri, document), uri) == Some(uri),
        m.insert(uri, document)[uri] == document,
{
}

/// After a document in normal form is closed, a lookup by its URI finds
/// nothing (every [`Uri`] built by [`Uri::new`] is in normal form).
pub proof fn lemma_close_then_get(m: Map<Seq<char>, DocumentState>, uri: Seq<char>)
    requires
        normalized(uri) == uri,
    ensures
        lookup_key(m.remove(uri), uri) is None,
{
}

/// A lookup by any spelling of a URI finds the document stored under its
/// normal form, when nothing is stored under that exact spelling.
pub proof fn lemma_lookup_any_spelling(m: Map<Seq<char>, DocumentState>, spelling: Seq<char>)
    requires
        m.contains_key(normalized(spelling)),
        !m.contains_key(spelling),
    ensures
        lookup_key(m, spelling) == Some(normalized(spelling)),
{
}

} // verus!
