use vstd::prelude::*;

verus! {

/// One entry of the credential document. The host's key-value store keeps
/// arbitrary JSON-like values; the credential logic only ever asks whether
/// an entry is a string and, if so, which one, so that is all this type
/// records.
pub enum StoreValue {
    /// A string entry.
    Text(String),
    /// An entry of any non-string shape.
    Other,
}

/// The in-memory credential document: a key-value record holding at most
/// the two keys `server_url` and `api_token`. The host opens the backing
/// file (creating it when absent), hands the entries over as plain values,
/// and flushes the mutated document back to durable storage.
pub struct StoreDoc {
    pub server_url: Option<StoreValue>,
    pub api_token: Option<StoreValue>,
}

/// Abstract value of one entry: the character sequence of a string entry.
pub enum ValueView {
    Text(Seq<char>),
    Other,
}

/// Abstract value of the credential document.
pub struct DocView {
    pub server_url: Option<ValueView>,
    pub api_token: Option<ValueView>,
}

impl View for StoreValue {
    type V = ValueView;

    open spec fn view(&self) -> ValueView {
        match self {
            StoreValue::Text(s) => ValueView::Text(s@),
            StoreValue::Other => ValueView::Other,
        }
    }
}

impl View for StoreDoc {
    type V = DocView;

    open spec fn view(&self) -> DocView {
        DocView {
            server_url: match self.server_url {
                Some(v) => Some(v@),
                None => None,
            },
            api_token: match self.api_token {
                Some(v) => Some(v@),
                None => None,
            },
        }
    }
}

/// The text of an entry, if the entry is present and is a string.
pub open spec fn text_of(v: Option<ValueView>) -> Option<Seq<char>> {
    match v {
        Some(ValueView::Text(s)) => Some(s),
        _ => None,
    }
}

/// The credential pair a document yields: both entries must be present
/// and strings; otherwise the document holds no credentials.
pub open spec fn credentials_of(d: DocView) -> Option<(Seq<char>, Seq<char>)> {
    match (text_of(d.server_url), text_of(d.api_token)) {
        (Some(u), Some(t)) => Some((u, t)),
        _ => None,
    }
}

/// The document as a freshly created (or never written) backing file
/// presents it: no entries at all.
pub open spec fn empty_doc() -> DocView {
    DocView { server_url: None, api_token: None }
}

/// The document after both credential entries are set to the given texts.
pub open spec fn saved_doc(u: Seq<char>, t: Seq<char>) -> DocView {
    DocView { server_url: Some(ValueView::Text(u)), api_token: Some(ValueView::Text(t)) }
}

impl StoreDoc {
    /// A document with no entries, as the host sees one whose backing
    /// file does not exist yet.
    pub fn new() -> (d: StoreDoc)
        ensures
            d@ == empty_doc(),
    {
        StoreDoc { server_url: None, api_token: None }
    }
}

/// Sets both credential entries, overwriting whatever the document held.
/// Both are set in one step; the host flushes the document afterwards, so
/// a flush failure loses both together.
pub fn save_credentials(doc: &mut StoreDoc, server_url: String, api_token: String)
    ensures
        final(doc)@ == saved_doc(server_url@, api_token@),
{
    doc.server_url = Some(StoreValue::Text(server_url));
    doc.api_token = Some(StoreValue::Text(api_token));
}

/// Reads the credential pair. Yields the two strings exactly when both
/// entries are present and are strings; an absent or non-string entry
/// (and in particular a document that was never written) yields `None`,
/// never an error.
pub fn load_credentials(doc: &StoreDoc) -> (r: Option<(String, String)>)
    ensures
        match credentials_of(doc@) {
            Some(c) => r matches Some(p) && p.0@ == c.0 && p.1@ == c.1,
            None => r is None,
        },
{
    match (&doc.server_url, &doc.api_token) {
        (Some(StoreValue::Text(u)), Some(StoreValue::Text(t))) => Some((u.clone(), t.clone())),
        _ => None,
    }
}

/// Removes every entry of the document; the host flushes the emptied
/// document afterwards.
pub fn clear_credentials(doc: &mut StoreDoc)
    ensures
        final(doc)@ == empty_doc(),
{
    doc.server_url = None;
    doc.api_token = None;
}

/// Saving a pair and then loading yields exactly that pair, whatever the
/// document held before — for any texts, the empty ones included: an
/// empty string is a present entry, not an absent one.
pub proof fn lemma_save_then_load(u: Seq<char>, t: Seq<char>)
    ensures
        credentials_of(saved_doc(u, t)) == Some((u, t)),
{
}

/// Clearing and then loading yields no credentials.
pub proof fn lemma_clear_then_load()
    ensures
        credentials_of(empty_doc()) is None,
{
}

/// A document of which either entry is absent or not a string — one key
/// written alone, or a non-string value stored under a key — yields no
/// credentials.
pub proof fn lemma_partial_state(d: DocView)
    requires
        text_of(d.server_url) is None || text_of(d.api_token) is None,
    ensures
        credentials_of(d) is None,
{
}

} // verus!
