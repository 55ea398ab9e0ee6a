//! Names for the identifiers that documents refer to. A [`NameResolver`] is
//! a snapshot: built once from the whole of each reference collection, read
//! from then on, never written back.

use crate::text::{decimal, decimal_string, texts};
use crate::types::{Correspondent, Document, DocumentType, DocumentView, Tag};
use std::collections::HashMap;
use vstd::prelude::*;
use vstd::string::*;

verus! {

broadcast use vstd::std_specs::hash::group_hash_axioms;

/// The lookup that a list of records gives: each identifier with the name of
/// the last record that carries it.
pub open spec fn lookup(entries: Seq<(u64, Seq<char>)>) -> Map<u64, Seq<char>>
    decreases entries.len(),
{
    if entries.len() == 0 {
        Map::empty()
    } else {
        lookup(entries.drop_last()).insert(entries.last().0, entries.last().1)
    }
}

/// Identifier and name of each tag.
pub open spec fn tag_entries(tags: Seq<Tag>) -> Seq<(u64, Seq<char>)> {
    tags.map_values(|tag: Tag| (tag.id, tag.name@))
}

/// Identifier and name of each correspondent.
pub open spec fn correspondent_entries(correspondents: Seq<Correspondent>) -> Seq<
    (u64, Seq<char>),
> {
    correspondents.map_values(|correspondent: Correspondent| (correspondent.id, correspondent.name@))
}

/// Identifier and name of each document type.
pub open spec fn document_type_entries(document_types: Seq<DocumentType>) -> Seq<
    (u64, Seq<char>),
> {
    document_types.map_values(|kind: DocumentType| (kind.id, kind.name@))
}

/// The label that stands for a tag that the resolver does not know.
pub open spec fn placeholder(id: u64) -> Seq<char> {
    seq!['#'] + decimal(id as nat)
}

/// A [`NameResolver`] as a mathematical value: three lookups from
/// identifier to name.
pub struct NameResolverView {
    pub tags: Map<u64, Seq<char>>,
    pub correspondents: Map<u64, Seq<char>>,
    pub document_types: Map<u64, Seq<char>>,
}

impl NameResolverView {
    /// The name of the tag `id`, or its placeholder. Total: a reference to
    /// an unknown tag is shown, never dropped.
    pub open spec fn tag_name(self, id: u64) -> Seq<char> {
        if self.tags.contains_key(id) {
            self.tags[id]
        } else {
            placeholder(id)
        }
    }

    /// The name of the correspondent `id`, if there is such a record.
    pub open spec fn correspondent_name(self, id: u64) -> Option<Seq<char>> {
        if self.correspondents.contains_key(id) {
            Some(self.correspondents[id])
        } else {
            None
        }
    }

    /// The name of the document type `id`, if there is such a record.
    pub open spec fn document_type_name(self, id: u64) -> Option<Seq<char>> {
        if self.document_types.contains_key(id) {
            Some(self.document_types[id])
        } else {
            None
        }
    }
}

/// The names held in a table, as text.
pub open spec fn names(table: Map<u64, String>) -> Map<u64, Seq<char>> {
    table.map_values(|name: String| name@)
}

/// Lookup tables from identifier to name for tags, correspondents and
/// document types.
pub struct NameResolver {
    tags: HashMap<u64, String>,
    correspondents: HashMap<u64, String>,
    document_types: HashMap<u64, String>,
}

impl View for NameResolver {
    type V = NameResolverView;

    closed spec fn view(&self) -> NameResolverView {
        NameResolverView {
            tags: names(self.tags@),
            correspondents: names(self.correspondents@),
            document_types: names(self.document_types@),
        }
    }
}

fn remember(table: &mut HashMap<u64, String>, id: u64, name: &String)
    ensures
        names(final(table)@) == names(old(table)@).insert(id, name@),
{
    table.insert(id, name.clone());
    assert(names(table@) =~= names(old(table)@).insert(id, name@));
}

fn find(table: &HashMap<u64, String>, id: u64) -> (name: Option<String>)
    ensures
        name.deep_view() == if names(table@).contains_key(id) {
            Some(names(table@)[id])
        } else {
            None
        },
{
    match table.get(&id) {
        Some(name) => Some(name.clone()),
        None => None,
    }
}

/// The resolver that the three reference collections give.
pub open spec fn resolver_of(
    tags: Seq<Tag>,
    correspondents: Seq<Correspondent>,
    document_types: Seq<DocumentType>,
) -> NameResolverView {
    NameResolverView {
        tags: lookup(tag_entries(tags)),
        correspondents: lookup(correspondent_entries(correspondents)),
        document_types: lookup(document_type_entries(document_types)),
    }
}

impl NameResolver {
    /// Builds the resolver from the three reference collections, each
    /// taken whole. Where an identifier occurs twice in a collection, the
    /// later record names it.
    pub fn from_records(
        tags: &[Tag],
        correspondents: &[Correspondent],
        document_types: &[DocumentType],
    ) -> (resolver: NameResolver)
        ensures
            resolver@ == resolver_of(tags@, correspondents@, document_types@),
    {
        let mut tag_names: HashMap<u64, String> = HashMap::new();
        let mut i: usize = 0;
        assert(names(tag_names@) =~= lookup(tag_entries(tags@).take(0)));
        while i < tags.len()
            invariant
                i <= tags.len(),
                names(tag_names@) == lookup(tag_entries(tags@).take(i as int)),
            decreases tags.len() - i,
        {
            remember(&mut tag_names, tags[i].id, &tags[i].name);
            proof {
                let entries = tag_entries(tags@);
                assert(entries.take(i + 1).drop_last() =~= entries.take(i as int));
            }
            i += 1;
        }
        assert(tag_entries(tags@).take(i as int) =~= tag_entries(tags@));

        let mut correspondent_names: HashMap<u64, String> = HashMap::new();
        let mut j: usize = 0;
        assert(names(correspondent_names@) =~= lookup(
            correspondent_entries(correspondents@).take(0),
        ));
        while j < correspondents.len()
            invariant
                j <= correspondents.len(),
                names(correspondent_names@) == lookup(
                    correspondent_entries(correspondents@).take(j as int),
                ),
            decreases correspondents.len() - j,
        {
            remember(&mut correspondent_names, correspondents[j].id, &correspondents[j].name);
            proof {
                let entries = correspondent_entries(correspondents@);
                assert(entries.take(j + 1).drop_last() =~= entries.take(j as int));
            }
            j += 1;
        }
        assert(correspondent_entries(correspondents@).take(j as int) =~= correspondent_entries(
            correspondents@,
        ));

        let mut kind_names: HashMap<u64, String> = HashMap::new();
        let mut k: usize = 0;
        assert(names(kind_names@) =~= lookup(document_type_entries(document_types@).take(0)));
        while k < document_types.len()
            invariant
                k <= document_types.len(),
                names(kind_names@) == lookup(
                    document_type_entries(document_types@).take(k as int),
                ),
            decreases document_types.len() - k,
        {
            remember(&mut kind_names, document_types[k].id, &document_types[k].name);
            proof {
                let entries = document_type_entries(document_types@);
                assert(entries.take(k + 1).drop_last() =~= entries.take(k as int));
            }
            k += 1;
        }
        assert(document_type_entries(document_types@).take(k as int) =~= document_type_entries(
            document_types@,
        ));

        NameResolver {
            tags: tag_names,
            correspondents: correspondent_names,
            document_types: kind_names,
        }
    }

    /// The name of the tag `id`; `#` and the identifier where the resolver
    /// holds no such tag.
    pub fn tag_name(&self, id: u64) -> (name: String)
        ensures
            name@ == self@.tag_name(id),
    {
        proof {
            reveal_strlit("#");
            assert("#"@ =~= seq!['#']);
        }
        match find(&self.tags, id) {
            Some(name) => name,
            None => String::from_str("#").concat(decimal_string(id).as_str()),
        }
    }

    /// The name of the correspondent `id`, or `None` where the resolver
    /// holds no such record.
    pub fn correspondent_name(&self, id: u64) -> (name: Option<String>)
        ensures
            name.deep_view() == self@.correspondent_name(id),
    {
        find(&self.correspondents, id)
    }

    /// The name of the document type `id`, or `None` where the resolver
    /// holds no such record.
    pub fn document_type_name(&self, id: u64) -> (name: Option<String>)
        ensures
            name.deep_view() == self@.document_type_name(id),
    {
        find(&self.document_types, id)
    }
}

/// A document together with the names of what it refers to.
#[derive(Debug, Clone, PartialEq, Eq)]
pub struct ResolvedDocument {
    pub id: u64,
    pub title: String,
    pub correspondent: Option<u64>,
    pub correspondent_name: Option<String>,
    pub document_type: Option<u64>,
    pub document_type_name: Option<String>,
    pub tags: Vec<u64>,
    pub tag_names: Vec<String>,
    pub created: Option<jiff::civil::Date>,
    pub added: Option<jiff::Timestamp>,
    pub archive_serial_number: Option<u64>,
    pub original_file_name: Option<String>,
}

/// A [`ResolvedDocument`] as a mathematical value.
pub struct ResolvedDocumentView {
    pub id: u64,
    pub title: Seq<char>,
    pub correspondent: Option<u64>,
    pub correspondent_name: Option<Seq<char>>,
    pub document_type: Option<u64>,
    pub document_type_name: Option<Seq<char>>,
    pub tags: Seq<u64>,
    pub tag_names: Seq<Seq<char>>,
    pub created: Option<jiff::civil::Date>,
    pub added: Option<jiff::Timestamp>,
    pub archive_serial_number: Option<u64>,
    pub original_file_name: Option<Seq<char>>,
}

impl View for ResolvedDocument {
    type V = ResolvedDocumentView;

    open spec fn view(&self) -> ResolvedDocumentView {
        ResolvedDocumentView {
            id: self.id,
            title: self.title@,
            correspondent: self.correspondent,
            correspondent_name: self.correspondent_name.deep_view(),
            document_type: self.document_type,
            document_type_name: self.document_type_name.deep_view(),
            tags: self.tags@,
            tag_names: texts(self.tag_names@),
            created: self.created,
            added: self.added,
            archive_serial_number: self.archive_serial_number,
            original_file_name: self.original_file_name.deep_view(),
        }
    }
}

/// The name of each tag reference in `tags`, in order.
pub open spec fn tag_names_of(tags: Seq<u64>, names: NameResolverView) -> Seq<Seq<char>> {
    tags.map_values(|id: u64| names.tag_name(id))
}

/// The document `document` with the names that `names` holds for it. Every
/// tag reference gets a name, in the order of the references; a
/// correspondent or a document type that `names` does not know has none.
pub open spec fn resolved(document: DocumentView, names: NameResolverView)
    -> ResolvedDocumentView {
    ResolvedDocumentView {
        id: document.id,
        title: document.title,
        correspondent: document.correspondent,
        correspondent_name: match document.correspondent {
            Some(id) => names.correspondent_name(id),
            None => None,
        },
        document_type: document.document_type,
        document_type_name: match document.document_type {
            Some(id) => names.document_type_name(id),
            None => None,
        },
        tags: document.tags,
        tag_names: tag_names_of(document.tags, names),
        created: document.created,
        added: document.added,
        archive_serial_number: document.archive_serial_number,
        original_file_name: document.original_file_name,
    }
}

fn copy_text(text: &Option<String>) -> (copy: Option<String>)
    ensures
        copy.deep_view() == text.deep_view(),
{
    match text {
        Some(text) => Some(text.clone()),
        None => None,
    }
}

/// Resolves one document.
pub fn resolve_document(document: &Document, resolver: &NameResolver) -> (r: ResolvedDocument)
    ensures
        r@ == resolved(document@, resolver@),
{
    let mut tags: Vec<u64> = Vec::new();
    let mut tag_names: Vec<String> = Vec::new();
    let mut i: usize = 0;
    while i < document.tags.len()
        invariant
            i <= document.tags.len(),
            tags@ == document.tags@.take(i as int),
            tag_names@.len() == i,
            texts(tag_names@) == tag_names_of(document.tags@.take(i as int), resolver@),
        decreases document.tags.len() - i,
    {
        let id = document.tags[i];
        let name = resolver.tag_name(id);
        let ghost names_before = tag_names@;
        tags.push(id);
        tag_names.push(name);
        proof {
            let wanted = tag_names_of(document.tags@.take(i + 1), resolver@);
            let before = tag_names_of(document.tags@.take(i as int), resolver@);
            assert(tags@ =~= document.tags@.take(i + 1));
            assert forall|k: int| 0 <= k < wanted.len() implies texts(tag_names@)[k]
                == wanted[k] by {
                if k < i {
                    assert(texts(names_before)[k] == before[k]);
                }
            }
            assert(texts(tag_names@) =~= wanted);
        }
        i += 1;
    }
    assert(document.tags@.take(i as int) =~= document.tags@);
    ResolvedDocument {
        id: document.id,
        title: document.title.clone(),
        correspondent: document.correspondent,
        correspondent_name: match document.correspondent {
            Some(id) => resolver.correspondent_name(id),
            None => None,
        },
        document_type: document.document_type,
        document_type_name: match document.document_type {
            Some(id) => resolver.document_type_name(id),
            None => None,
        },
        tags,
        tag_names,
        created: document.created,
        added: document.added,
        archive_serial_number: document.archive_serial_number,
        original_file_name: copy_text(&document.original_file_name),
    }
}

/// Resolves each document, in order.
pub fn resolve_documents(docs: &[Document], resolver: &NameResolver) -> (r: Vec<ResolvedDocument>)
    ensures
        r@.len() == docs@.len(),
        forall|i: int| 0 <= i < docs@.len() ==> (#[trigger] r@[i])@ == resolved(
            docs@[i]@,
            resolver@,
        ),
{
    let mut out: Vec<ResolvedDocument> = Vec::new();
    let mut i: usize = 0;
    while i < docs.len()
        invariant
            i <= docs.len(),
            out@.len() == i,
            forall|k: int| 0 <= k < i ==> (#[trigger] out@[k])@ == resolved(docs@[k]@, resolver@),
        decreases docs.len() - i,
    {
        out.push(resolve_document(&docs[i], resolver));
        i += 1;
    }
    out
}

/// A lookup knows exactly the identifiers that occur in its records.
pub proof fn lemma_lookup_knows_what_occurs(entries: Seq<(u64, Seq<char>)>, id: u64)
    ensures
        lookup(entries).contains_key(id) <==> exists|i: int|
            0 <= i < entries.len() && (#[trigger] entries[i]).0 == id,
    decreases entries.len(),
{
    if entries.len() > 0 {
        let front = entries.drop_last();
        lemma_lookup_knows_what_occurs(front, id);
        if entries.last().0 == id {
            assert(entries[entries.len() - 1].0 == id);
        } else if lookup(front).contains_key(id) {
            let i = choose|i: int| 0 <= i < front.len() && (#[trigger] front[i]).0 == id;
            assert(entries[i] == front[i]);
        } else if exists|i: int| 0 <= i < entries.len() && (#[trigger] entries[i]).0 == id {
            let i = choose|i: int| 0 <= i < entries.len() && (#[trigger] entries[i]).0 == id;
            assert(front[i] == entries[i]);
        }
    }
}

/// A lookup names an identifier by the last record that carries it.
pub proof fn lemma_lookup_names_last(entries: Seq<(u64, Seq<char>)>, i: int)
    requires
        0 <= i < entries.len(),
        forall|j: int| i < j < entries.len() ==> (#[trigger] entries[j]).0 != entries[i].0,
    ensures
        lookup(entries).contains_key(entries[i].0),
        lookup(entries)[entries[i].0] == entries[i].1,
    decreases entries.len(),
{
    if i < entries.len() - 1 {
        let front = entries.drop_last();
        assert(front[i] == entries[i]);
        assert(entries[entries.len() - 1].0 != entries[i].0);
        assert forall|j: int| i < j < front.len() implies (#[trigger] front[j]).0
            != front[i].0 by {
            assert(front[j] == entries[j]);
        }
        lemma_lookup_names_last(front, i);
    }
}

} // verus!
