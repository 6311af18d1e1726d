//! Lifecycle messages: `initialize` / `initialized` / `shutdown` and the
//! capability negotiation that rides along with them.

use super::base::Uri;
use super::code_lens::CodeLensOptions;
use super::diagnostics::DiagnosticOptions;
use super::enums::PositionEncodingKind;
use super::file_operations::FileOperationsServerCapabilities;
use super::formatting::DocumentOnTypeFormattingOptions;
use super::hierarchy::{CallHierarchyOptions, TypeHierarchyOptions};
use super::inlay_hint::InlayHintOptions;
use super::links::DocumentLinkOptions;
use super::notebook::NotebookDocumentSyncOptions;
use super::semantic_tokens::SemanticTokensOptions;
use super::symbols::WorkspaceSymbolOptions;
use super::workspace::{ExecuteCommandOptions, WorkspaceFolder};
use crate::strings::{chars_of, str_eq, string_of_range};
use vstd::prelude::*;

verus! {

/// Parameters of the `initialize` request.
///
/// Only the broadly useful fields are modelled as named fields; anything else
/// the client sends (`trace`, `locale`, …) is preserved verbatim in
/// [`extra`](Self::extra) rather than dropped, mirroring
/// [`ServerCapabilities::extra`].
#[derive(Debug, Clone, PartialEq, Default)]
pub struct InitializeParams {
    /// The process id of the parent process that started the server.
    pub process_id: Option<i32>,
    /// Information about the client.
    pub client_info: Option<ClientInfo>,
    /// The root URI of the workspace, if any. Deprecated by the spec in
    /// favour of [`workspace_folders`](Self::workspace_folders), but still
    /// sent by some clients.
    pub root_uri: Option<Uri>,
    /// The workspace folders configured, for multi-root workspaces. `None`
    /// when the client doesn't support multi-root and sent `root_uri`
    /// instead.
    pub workspace_folders: Option<Vec<WorkspaceFolder>>,
    /// Capabilities advertised by the client.
    pub capabilities: ClientCapabilities,
    /// Server-defined initialization options passed by the client.
    pub initialization_options: Option<serde_json::Value>,
    /// Any fields not modelled above (e.g. `trace`, `locale`), preserved so
    /// backends can still read them.
    pub extra: serde_json::Map<String, serde_json::Value>,
}

impl InitializeParams {
    /// The workspace's root folders, unified across the two ways clients
    /// report them: the workspace folders when the client supports
    /// multi-root, else a single folder made from the deprecated root URI
    /// (named by its last `/`-separated segment). Empty when the client
    /// sent neither.
    pub fn workspace_roots(&self) -> (r: Vec<WorkspaceFolder>)
        ensures
            match self.workspace_folders {
                Some(folders) => r@.len() == folders@.len() && forall|i: int|
                    0 <= i < r@.len() ==> (#[trigger] r@[i]).uri@ == folders@[i].uri@
                        && r@[i].name@ == folders@[i].name@,
                None => match self.root_uri {
                    Some(uri) => r@.len() == 1 && r@[0].uri@ == uri@ && r@[0].name@
                        == last_segment(uri@),
                    None => r@.len() == 0,
                },
            },
    {
        match &self.workspace_folders {
            Some(folders) => {
                let mut out: Vec<WorkspaceFolder> = Vec::new();
                let mut i: usize = 0;
                while i < folders.len()
                    invariant
                        i <= folders@.len(),
                        out@.len() == i,
                        forall|j: int|
                            0 <= j < i ==> (#[trigger] out@[j]).uri@ == folders@[j].uri@
                                && out@[j].name@ == folders@[j].name@,
                    decreases folders@.len() - i,
                {
                    out.push(
                        WorkspaceFolder {
                            uri: folders[i].uri.duplicate(),
                            name: folders[i].name.clone(),
                        },
                    );
                    i += 1;
                }
                out
            },
            None => match &self.root_uri {
                Some(uri) => {
                    let chars = chars_of(uri.as_str());
                    let mut start = chars.len();
                    while start > 0 && chars[start - 1] != '/'
                        invariant
                            start <= chars@.len(),
                            forall|k: int| start <= k < chars@.len() ==> #[trigger] chars@[k] != '/',
                        decreases start,
                    {
                        start -= 1;
                    }
                    proof {
                        lemma_last_segment(chars@, start as int);
                    }
                    let name = string_of_range(chars.as_slice(), start, chars.len());
                    let mut out: Vec<WorkspaceFolder> = Vec::new();
                    out.push(WorkspaceFolder { uri: uri.duplicate(), name });
                    out
                },
                None => Vec::new(),
            },
        }
    }
}

/// What follows the last `/` of `s` (all of `s` if it has none).
pub open spec fn last_segment(s: Seq<char>) -> Seq<char>
    decreases s.len(),
{
    if s.len() == 0 || s.last() == '/' {
        Seq::empty()
    } else {
        last_segment(s.drop_last()).push(s.last())
    }
}

proof fn lemma_last_segment(s: Seq<char>, start: int)
    requires
        0 <= start <= s.len(),
        start == 0 || s[start - 1] == '/',
        forall|k: int| start <= k < s.len() ==> #[trigger] s[k] != '/',
    ensures
        last_segment(s) == s.subrange(start, s.len() as int),
    decreases s.len(),
{
    if s.len() > start {
        lemma_last_segment(s.drop_last(), start);
        assert(s.drop_last().subrange(start, s.len() - 1).push(s.last()) =~= s.subrange(
            start,
            s.len() as int,
        ));
    } else {
        if start > 0 {
            assert(s.last() == '/');
        }
        assert(s.subrange(start, s.len() as int) =~= Seq::<char>::empty());
    }
}

/// The position encoding to advertise: the first entry of `preference`
/// that the client supports (`supported`, in the client's order), else
/// UTF-16, which every client must support and pre-3.17 clients implicitly
/// use.
pub open spec fn negotiated_encoding(
    supported: Seq<PositionEncodingKind>,
    preference: Seq<PositionEncodingKind>,
) -> PositionEncodingKind
    decreases preference.len(),
{
    if preference.len() == 0 {
        PositionEncodingKind::Utf16
    } else if supported.contains(preference[0]) {
        preference[0]
    } else {
        negotiated_encoding(supported, preference.drop_first())
    }
}

/// Negotiation answers with the first entry of the server's preference
/// that the client supports, however far down the list it stands; only
/// when the client supports none of them is the answer UTF-16.
pub proof fn lemma_negotiation_takes_first_supported_preference(
    supported: Seq<PositionEncodingKind>,
    preference: Seq<PositionEncodingKind>,
    i: int,
)
    ensures
        0 <= i < preference.len() && supported.contains(preference[i]) && (forall|j: int|
            0 <= j < i ==> !supported.contains(#[trigger] preference[j])) ==> negotiated_encoding(
            supported,
            preference,
        ) == preference[i],
        (forall|j: int| 0 <= j < preference.len() ==> !supported.contains(#[trigger] preference[j]))
            ==> negotiated_encoding(supported, preference) == PositionEncodingKind::Utf16,
    decreases preference.len(),
{
    if preference.len() > 0 {
        let rest = preference.drop_first();
        if supported.contains(preference[0]) {
            if 0 < i < preference.len() && supported.contains(preference[i]) {
                assert(supported.contains(preference[0]));
            }
        } else {
            lemma_negotiation_takes_first_supported_preference(supported, rest, i - 1);
            if 0 <= i < preference.len() && supported.contains(preference[i]) && (forall|j: int|
                0 <= j < i ==> !supported.contains(#[trigger] preference[j])) {
                assert(i != 0);
                assert(rest[i - 1] == preference[i]);
                assert forall|j: int| 0 <= j < i - 1 implies !supported.contains(#[trigger] rest[j]) by {
                    assert(rest[j] == preference[j + 1]);
                }
            }
            if forall|j: int| 0 <= j < preference.len() ==> !supported.contains(#[trigger] preference[j]) {
                assert forall|j: int| 0 <= j < rest.len() implies !supported.contains(#[trigger] rest[j]) by {
                    assert(rest[j] == preference[j + 1]);
                }
            }
        }
    }
}

/// The segments of a dotted capability path such as
/// `"textDocument.definition.linkSupport"`: the pieces between the dots, in
/// order. A path without dots is one segment, and empty pieces (around a
/// leading, trailing or doubled dot) are kept.
pub open spec fn dotted_segments(path: Seq<char>) -> Seq<Seq<char>>
    decreases path.len(),
{
    if path.len() == 0 {
        seq![Seq::<char>::empty()]
    } else {
        let before = dotted_segments(path.drop_last());
        if path.last() == '.' {
            before.push(Seq::<char>::empty())
        } else {
            before.update(before.len() - 1, before.last().push(path.last()))
        }
    }
}

/// Split a dotted capability path (the kind `ClientCapabilities` lookups
/// take) into its segments.
pub fn capability_path_segments(path: &str) -> (r: Vec<String>)
    ensures
        r@.map_values(|s: String| s@) == dotted_segments(path@),
{
    let chars = chars_of(path);
    let mut segments: Vec<String> = Vec::new();
    let mut current = String::new();
    let mut i: usize = 0;
    proof {
        assert(chars@.take(0) =~= Seq::<char>::empty());
        assert(segments@.map_values(|s: String| s@).push(current@) =~= seq![Seq::<char>::empty()]);
    }
    while i < chars.len()
        invariant
            i <= chars@.len(),
            chars@ == path@,
            segments@.map_values(|s: String| s@).push(current@) == dotted_segments(
                chars@.take(i as int),
            ),
        decreases chars@.len() - i,
    {
        let c = chars[i];
        proof {
            assert(chars@.take(i + 1).drop_last() =~= chars@.take(i as int));
            assert(chars@.take(i + 1).last() == c);
        }
        if c == '.' {
            let done = current;
            segments.push(done);
            current = String::new();
            proof {
                assert(segments@.map_values(|s: String| s@) =~= segments@.drop_last().map_values(
                    |s: String| s@,
                ).push(done@));
            }
        } else {
            let ghost before = segments@.map_values(|s: String| s@).push(current@);
            crate::strings::string_push(&mut current, c);
            proof {
                assert(segments@.map_values(|s: String| s@).push(current@) =~= before.update(
                    before.len() - 1,
                    before.last().push(c),
                ));
            }
        }
        i += 1;
    }
    segments.push(current);
    proof {
        assert(chars@.take(chars@.len() as int) =~= chars@);
        assert(segments@.map_values(|s: String| s@) =~= segments@.drop_last().map_values(
            |s: String| s@,
        ).push(segments@.last()@));
    }
    segments
}

fn contains_encoding(supported: &[PositionEncodingKind], candidate: PositionEncodingKind) -> (r:
    bool)
    ensures
        r == supported@.contains(candidate),
{
    let mut j: usize = 0;
    while j < supported.len()
        invariant
            j <= supported@.len(),
            forall|k: int| 0 <= k < j ==> #[trigger] supported@[k] != candidate,
        decreases supported@.len() - j,
    {
        if supported[j] == candidate {
            proof {
                assert(supported@[j as int] == candidate);
            }
            return true;
        }
        j += 1;
    }
    false
}

/// Pick the position encoding to advertise from the encodings the client
/// supports and the server's `preference` (see [`negotiated_encoding`]).
pub fn negotiate_position_encoding(
    supported: &[PositionEncodingKind],
    preference: &[PositionEncodingKind],
) -> (r: PositionEncodingKind)
    ensures
        r == negotiated_encoding(supported@, preference@),
{
    let mut i: usize = 0;
    proof {
        assert(preference@.skip(0) =~= preference@);
    }
    while i < preference.len()
        invariant
            i <= preference@.len(),
            negotiated_encoding(supported@, preference@) == negotiated_encoding(
                supported@,
                preference@.skip(i as int),
            ),
        decreases preference@.len() - i,
    {
        let candidate = preference[i];
        proof {
            assert(preference@.skip(i as int)[0] == candidate);
            assert(preference@.skip(i as int).drop_first() =~= preference@.skip(i + 1));
        }
        if contains_encoding(supported, candidate) {
            return candidate;
        }
        i += 1;
    }
    proof {
        assert(preference@.skip(i as int) =~= Seq::<PositionEncodingKind>::empty());
    }
    PositionEncodingKind::Utf16
}



/// Information about the client implementation.
#[derive(Debug, Clone, PartialEq, Eq)]
pub struct ClientInfo {
    /// The client's name (e.g. `"Visual Studio Code"`).
    pub name: String,
    /// The client's version string.
    pub version: Option<String>,
}

/// Capabilities advertised by the client.
///
/// The capability tree is large and evolves with the spec, so it is kept
/// whole, as the tree of JSON values the client sent. Backends that need to
/// branch on a specific capability can inspect [`ClientCapabilities::raw`]
/// directly, or use [`get`](Self::get)/[`supports`](Self::supports) to walk
/// a dotted path without hand-rolling the traversal.
#[derive(Debug, Clone, PartialEq, Default)]
pub struct ClientCapabilities {
    /// The members of the full, untyped capability object as sent by the
    /// client, in order.
    pub raw: Vec<(String, CapabilityValue)>,
}

/// A JSON value of the client's capability tree.
#[derive(Debug, PartialEq)]
pub enum CapabilityValue {
    /// `null`.
    Null,
    /// `true` or `false`.
    Bool(bool),
    /// A number, by its JSON text.
    Number(String),
    /// A string.
    Str(String),
    /// An array.
    Array(Vec<CapabilityValue>),
    /// An object's members, in order.
    Object(Vec<(String, CapabilityValue)>),
}

impl Clone for CapabilityValue {
    fn clone(&self) -> Self
        decreases self,
    {
        match self {
            CapabilityValue::Null => CapabilityValue::Null,
            CapabilityValue::Bool(b) => CapabilityValue::Bool(*b),
            CapabilityValue::Number(t) => CapabilityValue::Number(t.clone()),
            CapabilityValue::Str(t) => CapabilityValue::Str(t.clone()),
            CapabilityValue::Array(items) => {
                let mut out: Vec<CapabilityValue> = Vec::new();
                let mut i: usize = 0;
                while i < items.len()
                    invariant
                        i <= items@.len(),
                        *self == CapabilityValue::Array(*items),
                    decreases items@.len() - i,
                {
                    proof {
                        assert(decreases_to!(*self => self->Array_0));
                        vstd::std_specs::vec::axiom_vec_index_decreases(*items, i as int);
                    }
                    let item = items[i].clone();
                    out.push(item);
                    i += 1;
                }
                CapabilityValue::Array(out)
            },
            CapabilityValue::Object(members) => {
                let mut out: Vec<(String, CapabilityValue)> = Vec::new();
                let mut i: usize = 0;
                while i < members.len()
                    invariant
                        i <= members@.len(),
                        *self == CapabilityValue::Object(*members),
                    decreases members@.len() - i,
                {
                    proof {
                        assert(decreases_to!(*self => self->Object_0));
                        vstd::std_specs::vec::axiom_vec_index_decreases(*members, i as int);
                        assert(decreases_to!(members[i as int] => members[i as int].1));
                    }
                    let key = members[i].0.clone();
                    let value = members[i].1.clone();
                    out.push((key, value));
                    i += 1;
                }
                CapabilityValue::Object(out)
            },
        }
    }
}

/// The value of the first member of `members` named `key`.
pub open spec fn member(members: Seq<(String, CapabilityValue)>, key: Seq<char>) -> Option<
    CapabilityValue,
>
    decreases members.len(),
{
    if members.len() == 0 {
        None
    } else if members[0].0@ == key {
        Some(members[0].1)
    } else {
        member(members.drop_first(), key)
    }
}

/// The value reached from `v` by following `path`, one object member per
/// segment; `None` where a segment is missing or the value there is no
/// object.
pub open spec fn value_at(v: CapabilityValue, path: Seq<Seq<char>>) -> Option<CapabilityValue>
    decreases path.len(),
{
    if path.len() == 0 {
        Some(v)
    } else {
        match v {
            CapabilityValue::Object(members) => match member(members@, path[0]) {
                Some(child) => value_at(child, path.drop_first()),
                None => None,
            },
            _ => None,
        }
    }
}

/// The position encoding a capability value names, if it is one of the
/// strings `utf-8`, `utf-16`, `utf-32`.
pub open spec fn encoding_named(v: CapabilityValue) -> Option<PositionEncodingKind> {
    match v {
        CapabilityValue::Str(s) => if s@ == "utf-8"@ {
            Some(PositionEncodingKind::Utf8)
        } else if s@ == "utf-16"@ {
            Some(PositionEncodingKind::Utf16)
        } else if s@ == "utf-32"@ {
            Some(PositionEncodingKind::Utf32)
        } else {
            None
        },
        _ => None,
    }
}

/// The known encodings named in `items`, in order; the rest are skipped.
pub open spec fn encodings_in(items: Seq<CapabilityValue>) -> Seq<PositionEncodingKind>
    decreases items.len(),
{
    if items.len() == 0 {
        Seq::empty()
    } else {
        encodings_in(items.drop_last()) + match encoding_named(items.last()) {
            Some(k) => seq![k],
            None => Seq::empty(),
        }
    }
}

/// The known encodings an array value lists (none for anything else).
pub open spec fn known_encodings(v: Option<CapabilityValue>) -> Seq<PositionEncodingKind> {
    match v {
        Some(CapabilityValue::Array(items)) => encodings_in(items@),
        _ => Seq::empty(),
    }
}

/// The path of the client's position encodings: `general.positionEncodings`.
pub open spec fn encodings_path() -> Seq<Seq<char>> {
    seq!["general"@, "positionEncodings"@]
}

/// The value of the first member named `key`.
fn find_member<'a>(members: &'a Vec<(String, CapabilityValue)>, key: &str) -> (r: Option<
    &'a CapabilityValue,
>)
    ensures
        match member(members@, key@) {
            Some(v) => r matches Some(x) && *x == v,
            None => r is None,
        },
{
    let mut i: usize = 0;
    proof {
        assert(members@.skip(0) =~= members@);
    }
    while i < members.len()
        invariant
            i <= members@.len(),
            member(members@, key@) == member(members@.skip(i as int), key@),
        decreases members@.len() - i,
    {
        proof {
            assert(members@.skip(i as int)[0] == members@[i as int]);
            assert(members@.skip(i as int).drop_first() =~= members@.skip(i + 1));
        }
        if str_eq(members[i].0.as_str(), key) {
            return Some(&members[i].1);
        }
        i += 1;
    }
    None
}

/// A dotted path always has at least one segment.
proof fn lemma_dotted_segments_nonempty(path: Seq<char>)
    ensures
        dotted_segments(path).len() >= 1,
    decreases path.len(),
{
    if path.len() > 0 {
        lemma_dotted_segments_nonempty(path.drop_last());
    }
}

impl ClientCapabilities {
    /// The capability tree: an object of the raw members.
    pub open spec fn tree(&self) -> CapabilityValue {
        CapabilityValue::Object(self.raw)
    }

    /// Look up a dotted path into the raw capability tree, e.g.
    /// `"textDocument.definition.linkSupport"`. Returns `None` if any
    /// segment is missing.
    pub fn get(&self, path: &str) -> (r: Option<&CapabilityValue>)
        ensures
            match value_at(self.tree(), dotted_segments(path@)) {
                Some(v) => r matches Some(x) && *x == v,
                None => r is None,
            },
    {
        let segments = capability_path_segments(path);
        let ghost segs = segments@.map_values(|s: String| s@);
        proof {
            lemma_dotted_segments_nonempty(path@);
            assert(segs.skip(0) =~= segs);
        }
        let mut members: &Vec<(String, CapabilityValue)> = &self.raw;
        let mut i: usize = 0;
        while i < segments.len()
            invariant
                segs == segments@.map_values(|s: String| s@),
                segs == dotted_segments(path@),
                segs.len() >= 1,
                i < segs.len(),
                value_at(self.tree(), segs) == value_at(
                    CapabilityValue::Object(*members),
                    segs.skip(i as int),
                ),
            decreases segs.len() - i,
        {
            let key = segments[i].as_str();
            proof {
                assert(segs.skip(i as int)[0] == key@);
                assert(segs.skip(i as int).drop_first() =~= segs.skip(i + 1));
            }
            let ghost here = CapabilityValue::Object(*members);
            let ghost rest = segs.skip(i as int);
            proof {
                assert(rest.len() > 0);
                assert(here->Object_0@ == members@);
                assert(value_at(here, rest) == match member(members@, key@) {
                    Some(c) => value_at(c, rest.drop_first()),
                    None => None,
                });
            }
            match find_member(members, key) {
                None => {
                    return None;
                },
                Some(child) => {
                    if i + 1 == segments.len() {
                        proof {
                            assert(segs.skip(i + 1) =~= Seq::<Seq<char>>::empty());
                            assert(value_at(*child, segs.skip(i + 1)) == Some(*child));
                        }
                        return Some(child);
                    }
                    proof {
                        assert(segs.skip(i + 1).len() > 0);
                    }
                    match child {
                        CapabilityValue::Object(inner) => {
                            members = inner;
                        },
                        _ => {
                            return None;
                        },
                    }
                },
            }
            i += 1;
        }
        None
    }

    /// Whether `path` (see [`get`](Self::get)) resolves to a "yes": any
    /// present value other than `null` and `false` (the spec often signals
    /// support with a nested options object rather than a bare boolean).
    pub fn supports(&self, path: &str) -> (r: bool)
        ensures
            r == (value_at(self.tree(), dotted_segments(path@)) matches Some(v) && !(v is Null)
                && !(v matches CapabilityValue::Bool(false))),
    {
        match self.get(path) {
            None => false,
            Some(CapabilityValue::Null) => false,
            Some(CapabilityValue::Bool(b)) => *b,
            Some(_) => true,
        }
    }

    /// The position encodings the client supports
    /// (`general.positionEncodings`, LSP 3.17), in the client's preference
    /// order; unknown encoding strings are skipped. Empty means the client
    /// declared none, i.e. only UTF-16 may be assumed.
    pub fn position_encodings(&self) -> (r: Vec<PositionEncodingKind>)
        ensures
            r@ == known_encodings(value_at(self.tree(), encodings_path())),
    {
        let ghost path = encodings_path();
        let ghost tail = seq!["positionEncodings"@];
        proof {
            assert(path.drop_first() =~= tail);
            assert(tail.drop_first() =~= Seq::<Seq<char>>::empty());
            assert(path[0] == "general"@);
            assert(tail[0] == "positionEncodings"@);
            assert(value_at(self.tree(), path) == match member(self.raw@, "general"@) {
                Some(c) => value_at(c, tail),
                None => None,
            });
        }
        let mut out: Vec<PositionEncodingKind> = Vec::new();
        let general = match find_member(&self.raw, "general") {
            Some(CapabilityValue::Object(members)) => members,
            _ => {
                return out;
            },
        };
        proof {
            assert(value_at(CapabilityValue::Object(*general), tail) == match member(
                general@,
                "positionEncodings"@,
            ) {
                Some(c) => value_at(c, Seq::<Seq<char>>::empty()),
                None => None,
            });
        }
        let items = match find_member(general, "positionEncodings") {
            Some(CapabilityValue::Array(items)) => items,
            _ => {
                return out;
            },
        };
        let mut i: usize = 0;
        proof {
            assert(items@.take(0) =~= Seq::<CapabilityValue>::empty());
        }
        while i < items.len()
            invariant
                i <= items@.len(),
                out@ == encodings_in(items@.take(i as int)),
            decreases items@.len() - i,
        {
            proof {
                assert(items@.take(i + 1).drop_last() =~= items@.take(i as int));
                assert(items@.take(i + 1).last() == items@[i as int]);
            }
            match &items[i] {
                CapabilityValue::Str(s) => {
                    if str_eq(s.as_str(), "utf-8") {
                        out.push(PositionEncodingKind::Utf8);
                    } else if str_eq(s.as_str(), "utf-16") {
                        out.push(PositionEncodingKind::Utf16);
                    } else if str_eq(s.as_str(), "utf-32") {
                        out.push(PositionEncodingKind::Utf32);
                    }
                },
                _ => {},
            }
            i += 1;
        }
        proof {
            assert(items@.take(items@.len() as int) =~= items@);
        }
        out
    }

    /// Pick the position encoding to advertise: the first entry of
    /// `preference` the client supports, else UTF-16 (which every client
    /// must support and pre-3.17 clients implicitly use).
    pub fn negotiate_position_encoding(&self, preference: &[PositionEncodingKind]) -> (r:
        PositionEncodingKind)
        ensures
            r == negotiated_encoding(
                known_encodings(value_at(self.tree(), encodings_path())),
                preference@,
            ),
    {
        let supported = self.position_encodings();
        negotiate_position_encoding(supported.as_slice(), preference)
    }
}



/// Result of the `initialize` request.
#[derive(Debug, Clone, PartialEq, Default)]
pub struct InitializeResult {
    /// The capabilities the server provides.
    pub capabilities: ServerCapabilities,
    /// Information about the server implementation.
    pub server_info: Option<ServerInfo>,
}

/// Information about the server implementation.
#[derive(Debug, Clone, PartialEq, Eq)]
pub struct ServerInfo {
    /// The server's name.
    pub name: String,
    /// The server's version string.
    pub version: Option<String>,
}

/// Capabilities the server provides, advertised in [`InitializeResult`].
///
/// The modelled fields cover the features this framework dispatches to typed
/// trait methods. Anything else — semantic tokens, code actions, formatting,
/// and so on — can be advertised through [`ServerCapabilities::extra`], which is
/// flattened into the same JSON object.
#[derive(Debug, Clone, PartialEq, Default)]
pub struct ServerCapabilities {
    /// The character encoding the server chose for [`crate::lsp::Position`],
    /// selected from the client's `capabilities.general.positionEncodings`
    /// (LSP 3.17). `None` means UTF-16, the base-spec default, and matches
    /// the encoding every conversion in [`crate::text`] assumes.
    pub position_encoding: Option<PositionEncodingKind>,
    /// How the server wants document content synchronised: a bare
    /// [`TextDocumentSyncKind`](super::enums::TextDocumentSyncKind)
    /// (converts via `.into()`) or the full
    /// [`TextDocumentSyncOptions`](super::document::TextDocumentSyncOptions)
    /// form (open/close, will-save, save-with-text).
    pub text_document_sync: Option<super::document::TextDocumentSyncCapability>,
    /// Whether the server provides hover support.
    pub hover_provider: Option<bool>,
    /// Completion support and its options.
    pub completion_provider: Option<CompletionOptions>,
    /// Whether the server provides goto-definition support.
    pub definition_provider: Option<bool>,
    /// Whether the server provides goto-declaration support.
    pub declaration_provider: Option<bool>,
    /// Whether the server provides goto-type-definition support.
    pub type_definition_provider: Option<bool>,
    /// Whether the server provides goto-implementation support.
    pub implementation_provider: Option<bool>,
    /// Whether the server provides find-references support.
    pub references_provider: Option<bool>,
    /// Whether the server provides document-highlight support.
    pub document_highlight_provider: Option<bool>,
    /// Whether the server provides document-symbol support.
    pub document_symbol_provider: Option<bool>,
    /// Whether the server provides workspace-symbol support (optionally with
    /// `workspaceSymbol/resolve`).
    pub workspace_symbol_provider: Option<WorkspaceSymbolProviderCapability>,
    /// Signature-help support and its options.
    pub signature_help_provider: Option<SignatureHelpOptions>,
    /// Code-action support and its options.
    pub code_action_provider: Option<CodeActionProviderCapability>,
    /// Rename support and its options.
    pub rename_provider: Option<RenameProviderCapability>,
    /// Command-execution support and its options.
    pub execute_command_provider: Option<ExecuteCommandOptions>,
    /// Whether the server provides whole-document formatting support.
    pub document_formatting_provider: Option<bool>,
    /// Whether the server provides range-formatting support.
    pub document_range_formatting_provider: Option<bool>,
    /// On-type formatting support and its options.
    pub document_on_type_formatting_provider: Option<DocumentOnTypeFormattingOptions>,
    /// Whether the server provides folding-range support.
    pub folding_range_provider: Option<bool>,
    /// Whether the server provides selection-range support.
    pub selection_range_provider: Option<bool>,
    /// Code-lens support and its options.
    pub code_lens_provider: Option<CodeLensOptions>,
    /// Document-link support and its options.
    pub document_link_provider: Option<DocumentLinkOptions>,
    /// Whether the server provides document-color/color-presentation
    /// support.
    pub color_provider: Option<bool>,
    /// Semantic-tokens support and its options.
    pub semantic_tokens_provider: Option<SemanticTokensOptions>,
    /// Inlay-hint support and its options.
    pub inlay_hint_provider: Option<InlayHintOptions>,
    /// Diagnostic-pull-model support and its options.
    pub diagnostic_provider: Option<DiagnosticOptions>,
    /// Workspace-scoped capabilities that nest under `workspace` on the
    /// wire instead of being top-level fields:
    /// [`workspace_folders`](WorkspaceServerCapabilities::workspace_folders)
    /// and [`file_operations`](WorkspaceServerCapabilities::file_operations).
    pub workspace: Option<WorkspaceServerCapabilities>,
    /// Call-hierarchy support and its options.
    pub call_hierarchy_provider: Option<CallHierarchyProviderCapability>,
    /// Type-hierarchy support and its options.
    pub type_hierarchy_provider: Option<TypeHierarchyProviderCapability>,
    /// Notebook-document sync support and its options.
    pub notebook_document_sync: Option<NotebookDocumentSyncOptions>,
    /// Whether the server provides `textDocument/moniker` support (LSP 3.16).
    pub moniker_provider: Option<bool>,
    /// Whether the server provides `textDocument/linkedEditingRange` support
    /// (LSP 3.16).
    pub linked_editing_range_provider: Option<bool>,
    /// Whether the server provides `textDocument/inlineValue` support
    /// (LSP 3.17).
    pub inline_value_provider: Option<bool>,
    /// Whether the server provides `textDocument/inlineCompletion` support
    /// (LSP 3.18, proposed).
    pub inline_completion_provider: Option<bool>,
    /// Any additional capabilities not modelled above.
    pub extra: serde_json::Map<String, serde_json::Value>,
}

/// The `workspace` sub-object of [`ServerCapabilities`].
#[derive(Debug, Clone, PartialEq, Eq, Default)]
pub struct WorkspaceServerCapabilities {
    /// Multi-root workspace support, and interest in
    /// `workspace/didChangeWorkspaceFolders` notifications.
    pub workspace_folders: Option<WorkspaceFoldersServerCapabilities>,
    /// Which file-operation hooks (`willCreateFiles`, `didRenameFiles`, …)
    /// the server wants to be told about.
    pub file_operations: Option<FileOperationsServerCapabilities>,
}

/// The `workspace.workspaceFolders` sub-object of [`ServerCapabilities`]
/// (via [`WorkspaceServerCapabilities`]): whether the server supports
/// `workspace/workspaceFolders` and wants
/// `workspace/didChangeWorkspaceFolders` notifications.
#[derive(Debug, Clone, PartialEq, Eq, Default)]
pub struct WorkspaceFoldersServerCapabilities {
    /// Whether the server supports `workspace/workspaceFolders`.
    pub supported: Option<bool>,
    /// Whether (and how) the server wants
    /// `workspace/didChangeWorkspaceFolders` notifications.
    pub change_notifications: Option<WorkspaceFoldersChangeNotifications>,
}

/// The `changeNotifications` member of
/// [`WorkspaceFoldersServerCapabilities`]: a plain boolean, or a string used
/// as the id for dynamically (un)registering interest via
/// `client/registerCapability`/`client/unregisterCapability`.
#[derive(Debug, Clone, PartialEq, Eq)]
pub enum WorkspaceFoldersChangeNotifications {
    /// `true`/`false`: send (or don't send) change notifications, with no
    /// specific dynamic-registration id.
    Simple(bool),
    /// Send change notifications under this dynamic-registration id.
    Id(String),
}

/// Options describing the server's completion support.
#[derive(Debug, Clone, PartialEq, Default)]
pub struct CompletionOptions {
    /// Whether the server reports work-done progress for this provider.
    pub work_done_progress: Option<bool>,
    /// Characters that trigger completion automatically.
    pub trigger_characters: Vec<String>,
    /// Characters that commit the selected item in every context
    /// (LSP 3.2), overridable per item via `CompletionItem`.
    pub all_commit_characters: Option<Vec<String>>,
    /// Whether the server resolves additional information for a selected item
    /// via `completionItem/resolve`.
    pub resolve_provider: Option<bool>,
    /// Server capabilities specific to completion items (LSP 3.17).
    pub completion_item: Option<CompletionOptionsCompletionItem>,
}

/// The `completionItem` sub-object of [`CompletionOptions`] (LSP 3.17).
#[derive(Debug, Clone, Copy, PartialEq, Eq, Default)]
pub struct CompletionOptionsCompletionItem {
    /// Whether the server emits
    /// [`label_details`](crate::lsp::CompletionItem::label_details) on its
    /// completion items.
    pub label_details_support: Option<bool>,
}

/// Options describing the server's `textDocument/signatureHelp` support.
#[derive(Debug, Clone, PartialEq, Default)]
pub struct SignatureHelpOptions {
    /// Whether the server reports work-done progress for this provider.
    pub work_done_progress: Option<bool>,
    /// Characters that trigger signature help automatically.
    pub trigger_characters: Vec<String>,
    /// Characters that re-trigger signature help while it is already showing.
    pub retrigger_characters: Vec<String>,
}

/// Either a plain boolean or [`CodeActionOptions`](super::code_action::CodeActionOptions),
/// matching the spec's `boolean | CodeActionOptions` shape for `codeActionProvider`.
#[derive(Debug, Clone, PartialEq)]
pub enum CodeActionProviderCapability {
    /// `true`/`false`: code actions are (not) supported, with no further
    /// filtering or resolve support.
    Simple(bool),
    /// Code actions are supported with the given options.
    Options(super::code_action::CodeActionOptions),
}

impl Default for CodeActionProviderCapability {
    fn default() -> (r: Self)
        ensures
            r == CodeActionProviderCapability::Simple(false),
    {
        CodeActionProviderCapability::Simple(false)
    }
}

/// Either a plain boolean or [`RenameOptions`](super::rename::RenameOptions),
/// matching the spec's `boolean | RenameOptions` shape for `renameProvider`.
#[derive(Debug, Clone, Copy, PartialEq, Eq)]
pub enum RenameProviderCapability {
    /// `true`/`false`: rename is (not) supported, with no `prepareRename`.
    Simple(bool),
    /// Rename is supported with the given options.
    Options(super::rename::RenameOptions),
}

impl Default for RenameProviderCapability {
    fn default() -> (r: Self)
        ensures
            r == RenameProviderCapability::Simple(false),
    {
        RenameProviderCapability::Simple(false)
    }
}

/// Either a plain boolean or [`WorkspaceSymbolOptions`], matching the spec's
/// `boolean | WorkspaceSymbolOptions` shape for `workspaceSymbolProvider`.
#[derive(Debug, Clone, Copy, PartialEq, Eq)]
pub enum WorkspaceSymbolProviderCapability {
    /// `true`/`false`: workspace symbols are (not) supported, with no
    /// `workspaceSymbol/resolve`.
    Simple(bool),
    /// Workspace symbols are supported with the given options.
    Options(WorkspaceSymbolOptions),
}

impl Default for WorkspaceSymbolProviderCapability {
    fn default() -> (r: Self)
        ensures
            r == WorkspaceSymbolProviderCapability::Simple(false),
    {
        WorkspaceSymbolProviderCapability::Simple(false)
    }
}

/// Either a plain boolean or [`CallHierarchyOptions`], matching the spec's
/// `boolean | CallHierarchyOptions | CallHierarchyRegistrationOptions` shape
/// for `callHierarchyProvider`.
#[derive(Debug, Clone, Copy, PartialEq, Eq)]
pub enum CallHierarchyProviderCapability {
    /// `true`/`false`: call hierarchy is (not) supported.
    Simple(bool),
    /// Call hierarchy is supported with the given options.
    Options(CallHierarchyOptions),
}

impl Default for CallHierarchyProviderCapability {
    fn default() -> (r: Self)
        ensures
            r == CallHierarchyProviderCapability::Simple(false),
    {
        CallHierarchyProviderCapability::Simple(false)
    }
}

/// Either a plain boolean or [`TypeHierarchyOptions`], matching the spec's
/// `boolean | TypeHierarchyOptions | TypeHierarchyRegistrationOptions` shape
/// for `typeHierarchyProvider`.
#[derive(Debug, Clone, Copy, PartialEq, Eq)]
pub enum TypeHierarchyProviderCapability {
    /// `true`/`false`: type hierarchy is (not) supported.
    Simple(bool),
    /// Type hierarchy is supported with the given options.
    Options(TypeHierarchyOptions),
}

impl Default for TypeHierarchyProviderCapability {
    fn default() -> (r: Self)
        ensures
            r == TypeHierarchyProviderCapability::Simple(false),
    {
        TypeHierarchyProviderCapability::Simple(false)
    }
}

} // verus!

