use vstd::prelude::*;
use vstd::string::StringExecFns;

use crate::checksum::{dec_of, push_dec, sha3_256_hex, sha3_256_hex_of};
use crate::errors::{ChecksumError, ValidationError};
use crate::ids::fresh_uuid;

verus! {

/// The optional image of a feed: a url, title, link triple.
#[derive(Debug)]
pub struct FeedImage {
    pub url: String,
    pub title: String,
    pub link: String,
}

pub ghost struct FeedImageView {
    pub url: Seq<char>,
    pub title: Seq<char>,
    pub link: Seq<char>,
}

impl View for FeedImage {
    type V = FeedImageView;

    open spec fn view(&self) -> FeedImageView {
        FeedImageView { url: self.url@, title: self.title@, link: self.link@ }
    }
}

impl FeedImage {
    /// Create a new feed image.
    pub fn new(url: String, title: String, link: String) -> (r: FeedImage)
        ensures
            r@ == (FeedImageView { url: url@, title: title@, link: link@ }),
    {
        FeedImage { url, title, link }
    }
}

/// The optional enclosure of a feed item: a url, length, type triple.
#[derive(Debug)]
pub struct FeedItemEnclosure {
    pub url: String,
    pub length: String,
    pub mime_type: String,
}

pub ghost struct FeedItemEnclosureView {
    pub url: Seq<char>,
    pub length: Seq<char>,
    pub mime_type: Seq<char>,
}

impl View for FeedItemEnclosure {
    type V = FeedItemEnclosureView;

    open spec fn view(&self) -> FeedItemEnclosureView {
        FeedItemEnclosureView { url: self.url@, length: self.length@, mime_type: self.mime_type@ }
    }
}

impl FeedItemEnclosure {
    /// Create a new feed item enclosure.
    pub fn new(url: String, length: String, mime_type: String) -> (r: FeedItemEnclosure)
        ensures
            r@ == (FeedItemEnclosureView { url: url@, length: length@, mime_type: mime_type@ }),
    {
        FeedItemEnclosure { url, length, mime_type }
    }
}

/// An entry belonging to exactly one feed. The identifier is assigned at
/// construction and never reassigned; the checksum is derived from the
/// item's canonical form and recomputed on every content mutation.
#[derive(Debug)]
pub struct FeedItem {
    pub uuid: Option<u128>,
    pub title: Option<String>,
    pub link: Option<String>,
    pub description: Option<String>,
    pub author: Option<String>,
    pub comments: Option<String>,
    pub enclosure: Option<FeedItemEnclosure>,
    pub checksum: Option<String>,
}

pub ghost struct FeedItemView {
    pub uuid: Option<u128>,
    pub title: Option<Seq<char>>,
    pub link: Option<Seq<char>>,
    pub description: Option<Seq<char>>,
    pub author: Option<Seq<char>>,
    pub comments: Option<Seq<char>>,
    pub enclosure: Option<FeedItemEnclosureView>,
    pub checksum: Option<Seq<char>>,
}

/// The view of an optional owned string.
pub open spec fn opt_str_view(o: Option<String>) -> Option<Seq<char>> {
    match o {
        Option::Some(s) => Option::Some(s@),
        Option::None => Option::None,
    }
}

/// The view of an optional enclosure.
pub open spec fn opt_enclosure_view(o: Option<FeedItemEnclosure>) -> Option<FeedItemEnclosureView> {
    match o {
        Option::Some(e) => Option::Some(e@),
        Option::None => Option::None,
    }
}

/// The view of an optional image.
pub open spec fn opt_image_view(o: Option<FeedImage>) -> Option<FeedImageView> {
    match o {
        Option::Some(im) => Option::Some(im@),
        Option::None => Option::None,
    }
}

impl View for FeedItem {
    type V = FeedItemView;

    open spec fn view(&self) -> FeedItemView {
        FeedItemView {
            uuid: self.uuid,
            title: opt_str_view(self.title),
            link: opt_str_view(self.link),
            description: opt_str_view(self.description),
            author: opt_str_view(self.author),
            comments: opt_str_view(self.comments),
            enclosure: opt_enclosure_view(self.enclosure),
            checksum: opt_str_view(self.checksum),
        }
    }
}

/// The views of a sequence of feed items.
pub open spec fn items_view(s: Seq<FeedItem>) -> Seq<FeedItemView> {
    s.map_values(|it: FeedItem| it@)
}

/// Whether a feed contains its items as bare identifiers or as fully
/// materialized aggregates. Insertion order is meaningful and preserved.
#[derive(Debug)]
pub enum ItemsRepresentation {
    ReferencesOnly(Vec<u128>),
    Materialized(Vec<FeedItem>),
}

pub ghost enum ItemsRepresentationView {
    ReferencesOnly(Seq<u128>),
    Materialized(Seq<FeedItemView>),
}

/// The view of an optional items representation.
pub open spec fn opt_items_view(o: Option<ItemsRepresentation>) -> Option<ItemsRepresentationView> {
    match o {
        Option::Some(ItemsRepresentation::ReferencesOnly(refs)) => Option::Some(
            ItemsRepresentationView::ReferencesOnly(refs@),
        ),
        Option::Some(ItemsRepresentation::Materialized(items)) => Option::Some(
            ItemsRepresentationView::Materialized(items_view(items@)),
        ),
        Option::None => Option::None,
    }
}

/// A syndication channel. The identifier is assigned at construction and
/// never reassigned; the checksum is derived from the canonical form of the
/// content fields and the item identifier list, and is recomputed on every
/// content mutation.
#[derive(Debug)]
pub struct Feed {
    pub uuid: Option<u128>,
    pub title: Option<String>,
    pub description: Option<String>,
    pub link: Option<String>,
    pub category: Option<String>,
    pub copyright: Option<String>,
    pub image: Option<FeedImage>,
    pub language: Option<String>,
    pub items: Option<ItemsRepresentation>,
    pub checksum: Option<String>,
}

pub ghost struct FeedView {
    pub uuid: Option<u128>,
    pub title: Option<Seq<char>>,
    pub description: Option<Seq<char>>,
    pub link: Option<Seq<char>>,
    pub category: Option<Seq<char>>,
    pub copyright: Option<Seq<char>>,
    pub image: Option<FeedImageView>,
    pub language: Option<Seq<char>>,
    pub items: Option<ItemsRepresentationView>,
    pub checksum: Option<Seq<char>>,
}

impl View for Feed {
    type V = FeedView;

    open spec fn view(&self) -> FeedView {
        FeedView {
            uuid: self.uuid,
            title: opt_str_view(self.title),
            description: opt_str_view(self.description),
            link: opt_str_view(self.link),
            category: opt_str_view(self.category),
            copyright: opt_str_view(self.copyright),
            image: opt_image_view(self.image),
            language: opt_str_view(self.language),
            items: opt_items_view(self.items),
            checksum: opt_str_view(self.checksum),
        }
    }
}

// ---------------------------------------------------------------------------
// Cloning
//
// The Clone impls are written by hand so that a clone provably preserves the
// view of the value.
// ---------------------------------------------------------------------------
/// Clone an optional owned string, preserving its view.
pub fn clone_opt_string(o: &Option<String>) -> (r: Option<String>)
    ensures
        opt_str_view(r) == opt_str_view(*o),
{
    match o {
        Option::Some(s) => Option::Some(s.clone()),
        Option::None => Option::None,
    }
}

impl Clone for FeedImage {
    fn clone(&self) -> (r: FeedImage)
        ensures
            r@ == self@,
    {
        FeedImage { url: self.url.clone(), title: self.title.clone(), link: self.link.clone() }
    }
}

impl Clone for FeedItemEnclosure {
    fn clone(&self) -> (r: FeedItemEnclosure)
        ensures
            r@ == self@,
    {
        FeedItemEnclosure {
            url: self.url.clone(),
            length: self.length.clone(),
            mime_type: self.mime_type.clone(),
        }
    }
}

impl Clone for FeedItem {
    fn clone(&self) -> (r: FeedItem)
        ensures
            r@ == self@,
    {
        FeedItem {
            uuid: self.uuid,
            title: clone_opt_string(&self.title),
            link: clone_opt_string(&self.link),
            description: clone_opt_string(&self.description),
            author: clone_opt_string(&self.author),
            comments: clone_opt_string(&self.comments),
            enclosure: match &self.enclosure {
                Option::Some(en) => Option::Some(en.clone()),
                Option::None => Option::None,
            },
            checksum: clone_opt_string(&self.checksum),
        }
    }
}

/// Clone a list of identifiers, preserving its view.
pub fn clone_ids(v: &Vec<u128>) -> (r: Vec<u128>)
    ensures
        r@ == v@,
{
    let mut out: Vec<u128> = Vec::new();
    let mut i: usize = 0;
    while i < v.len()
        invariant
            i <= v.len(),
            out@ == v@.take(i as int),
        decreases v.len() - i,
    {
        out.push(v[i]);
        proof {
            assert(out@ =~= v@.take(i + 1 as int));
        }
        i = i + 1;
    }
    proof {
        assert(v@.take(v@.len() as int) =~= v@);
    }
    out
}

/// Clone a list of feed items, preserving the views of its elements.
pub fn clone_items(v: &Vec<FeedItem>) -> (r: Vec<FeedItem>)
    ensures
        items_view(r@) == items_view(v@),
{
    let mut out: Vec<FeedItem> = Vec::new();
    let mut i: usize = 0;
    while i < v.len()
        invariant
            i <= v.len(),
            out@.len() == i,
            forall|j: int| 0 <= j < i ==> out@[j]@ == v@[j]@,
        decreases v.len() - i,
    {
        out.push(v[i].clone());
        i = i + 1;
    }
    proof {
        assert(items_view(out@) =~= items_view(v@));
    }
    out
}

impl Clone for ItemsRepresentation {
    fn clone(&self) -> (r: ItemsRepresentation)
        ensures
            opt_items_view(Option::Some(r)) == opt_items_view(Option::Some(*self)),
    {
        match self {
            ItemsRepresentation::ReferencesOnly(refs) => ItemsRepresentation::ReferencesOnly(
                clone_ids(refs),
            ),
            ItemsRepresentation::Materialized(items) => ItemsRepresentation::Materialized(
                clone_items(items),
            ),
        }
    }
}

impl Clone for Feed {
    fn clone(&self) -> (r: Feed)
        ensures
            r@ == self@,
    {
        Feed {
            uuid: self.uuid,
            title: clone_opt_string(&self.title),
            description: clone_opt_string(&self.description),
            link: clone_opt_string(&self.link),
            category: clone_opt_string(&self.category),
            copyright: clone_opt_string(&self.copyright),
            image: match &self.image {
                Option::Some(im) => Option::Some(im.clone()),
                Option::None => Option::None,
            },
            language: clone_opt_string(&self.language),
            items: match &self.items {
                Option::Some(rep) => Option::Some(rep.clone()),
                Option::None => Option::None,
            },
            checksum: clone_opt_string(&self.checksum),
        }
    }
}

// ---------------------------------------------------------------------------
// Canonical serialization
//
// The checksum of an aggregate is the SHA3-256 digest of its canonical form:
// a deterministic character sequence with a stable field ordering. Absent
// optional fields contribute nothing; the derived checksum field itself and
// any backend-internal state are excluded. The item collection contributes
// the referenced identifiers only, in order, so the canonical form does not
// depend on whether the items are materialized.
// ---------------------------------------------------------------------------
/// The canonical form of one optional text field.
pub open spec fn canon_opt(tag: Seq<char>, v: Option<Seq<char>>) -> Seq<char> {
    match v {
        Option::Some(s) => tag + s + ";"@,
        Option::None => Seq::empty(),
    }
}

/// The canonical form of an optional identifier field.
pub open spec fn canon_opt_id(tag: Seq<char>, v: Option<u128>) -> Seq<char> {
    match v {
        Option::Some(id) => tag + dec_of(id as nat) + ";"@,
        Option::None => Seq::empty(),
    }
}

/// The canonical form of an optional feed image.
pub open spec fn canon_image(v: Option<FeedImageView>) -> Seq<char> {
    match v {
        Option::Some(im) => "im:"@ + im.url + ";"@ + im.title + ";"@ + im.link + ";"@,
        Option::None => Seq::empty(),
    }
}

/// The canonical form of an optional feed item enclosure.
pub open spec fn canon_enclosure(v: Option<FeedItemEnclosureView>) -> Seq<char> {
    match v {
        Option::Some(en) => "en:"@ + en.url + ";"@ + en.length + ";"@ + en.mime_type + ";"@,
        Option::None => Seq::empty(),
    }
}

/// The canonical form of an identifier list: each identifier in decimal,
/// each followed by a comma.
pub open spec fn canon_refs(refs: Seq<u128>) -> Seq<char>
    decreases refs.len(),
{
    if refs.len() == 0 {
        Seq::empty()
    } else {
        canon_refs(refs.drop_last()) + dec_of(refs.last() as nat) + ","@
    }
}

/// The identifiers of the materialized items that have one, in order. An
/// item without an identifier cannot be referenced and contributes nothing.
pub open spec fn item_ids_of(items: Seq<FeedItemView>) -> Seq<u128>
    decreases items.len(),
{
    if items.len() == 0 {
        Seq::empty()
    } else {
        item_ids_of(items.drop_last()) + match items.last().uuid {
            Option::Some(id) => seq![id],
            Option::None => Seq::<u128>::empty(),
        }
    }
}

/// The identifiers referenced by an items representation: the bare list
/// itself, or the identifiers of the materialized items that have one.
pub open spec fn rep_refs(rep: ItemsRepresentationView) -> Seq<u128> {
    match rep {
        ItemsRepresentationView::ReferencesOnly(refs) => refs,
        ItemsRepresentationView::Materialized(items) => item_ids_of(items),
    }
}

/// The canonical form of the item collection.
pub open spec fn canon_items(items: Option<ItemsRepresentationView>) -> Seq<char> {
    match items {
        Option::Some(rep) => "i:"@ + canon_refs(rep_refs(rep)) + ";"@,
        Option::None => Seq::empty(),
    }
}

/// The canonical form of a feed. The checksum field is not part of it.
pub open spec fn canon_feed(f: FeedView) -> Seq<char> {
    "feed;"@ + canon_opt_id("u:"@, f.uuid) + canon_opt("t:"@, f.title) + canon_opt(
        "d:"@,
        f.description,
    ) + canon_opt("l:"@, f.link) + canon_opt("c:"@, f.category) + canon_opt("r:"@, f.copyright)
        + canon_image(f.image) + canon_opt("g:"@, f.language) + canon_items(f.items)
}

/// The canonical form of a feed item. The checksum field is not part of it.
pub open spec fn canon_item(it: FeedItemView) -> Seq<char> {
    "item;"@ + canon_opt_id("u:"@, it.uuid) + canon_opt("t:"@, it.title) + canon_opt(
        "l:"@,
        it.link,
    ) + canon_opt("d:"@, it.description) + canon_opt("a:"@, it.author) + canon_opt(
        "c:"@,
        it.comments,
    ) + canon_enclosure(it.enclosure)
}

/// The checksum of a feed: the digest of its canonical form.
pub open spec fn feed_checksum_of(f: FeedView) -> Seq<char> {
    sha3_256_hex_of(canon_feed(f))
}

/// The checksum of a feed item: the digest of its canonical form.
pub open spec fn item_checksum_of(it: FeedItemView) -> Seq<char> {
    sha3_256_hex_of(canon_item(it))
}

/// A feed's stored checksum is not stale.
pub open spec fn checksum_current(f: FeedView) -> bool {
    f.checksum == Option::Some(feed_checksum_of(f))
}

/// A feed item's stored checksum is not stale.
pub open spec fn item_checksum_current(it: FeedItemView) -> bool {
    it.checksum == Option::Some(item_checksum_of(it))
}

// ---------------------------------------------------------------------------
// Canonical serialization, executable side
// ---------------------------------------------------------------------------
fn append_opt(out: &mut String, tag: &str, v: &Option<String>)
    ensures
        final(out)@ == old(out)@ + canon_opt(tag@, opt_str_view(*v)),
{
    match v {
        Option::Some(s) => {
            out.append(tag);
            out.append(s.as_str());
            out.append(";");
            proof {
                assert(out@ =~= old(out)@ + canon_opt(tag@, opt_str_view(*v)));
            }
        },
        Option::None => {
            proof {
                assert(out@ =~= old(out)@ + canon_opt(tag@, opt_str_view(*v)));
            }
        },
    }
}

fn append_opt_id(out: &mut String, tag: &str, v: &Option<u128>)
    ensures
        final(out)@ == old(out)@ + canon_opt_id(tag@, *v),
{
    match v {
        Option::Some(id) => {
            out.append(tag);
            push_dec(out, *id);
            out.append(";");
            proof {
                assert(out@ =~= old(out)@ + canon_opt_id(tag@, *v));
            }
        },
        Option::None => {
            proof {
                assert(out@ =~= old(out)@ + canon_opt_id(tag@, *v));
            }
        },
    }
}

fn append_refs(out: &mut String, refs: &Vec<u128>)
    ensures
        final(out)@ == old(out)@ + canon_refs(refs@),
{
    let mut i: usize = 0;
    while i < refs.len()
        invariant
            i <= refs.len(),
            out@ == old(out)@ + canon_refs(refs@.take(i as int)),
        decreases refs.len() - i,
    {
        push_dec(out, refs[i]);
        out.append(",");
        proof {
            assert(refs@.take(i + 1 as int).drop_last() =~= refs@.take(i as int));
            assert(out@ =~= old(out)@ + canon_refs(refs@.take(i + 1 as int)));
        }
        i = i + 1;
    }
    proof {
        assert(refs@.take(refs@.len() as int) =~= refs@);
    }
}

fn append_item_ids(out: &mut String, items: &Vec<FeedItem>)
    ensures
        final(out)@ == old(out)@ + canon_refs(item_ids_of(items_view(items@))),
{
    let mut i: usize = 0;
    while i < items.len()
        invariant
            i <= items.len(),
            out@ == old(out)@ + canon_refs(item_ids_of(items_view(items@.take(i as int)))),
        decreases items.len() - i,
    {
        proof {
            assert(items_view(items@.take(i + 1 as int)).drop_last() =~= items_view(
                items@.take(i as int),
            ));
            assert(items_view(items@.take(i + 1 as int)).last() == items@[i as int]@);
        }
        match &items[i].uuid {
            Option::Some(id) => {
                push_dec(out, *id);
                out.append(",");
                proof {
                    let ids = item_ids_of(items_view(items@.take(i as int)));
                    assert(item_ids_of(items_view(items@.take(i + 1 as int))) =~= ids + seq![*id]);
                    assert((ids + seq![*id]).drop_last() =~= ids);
                    assert(out@ =~= old(out)@ + canon_refs(
                        item_ids_of(items_view(items@.take(i + 1 as int))),
                    ));
                }
            },
            Option::None => {
                proof {
                    assert(item_ids_of(items_view(items@.take(i + 1 as int))) =~= item_ids_of(
                        items_view(items@.take(i as int)),
                    ));
                }
            },
        }
        i = i + 1;
    }
    proof {
        assert(items_view(items@.take(items@.len() as int)) =~= items_view(items@));
    }
}

/// Render a feed's canonical form.
#[verifier::rlimit(60)]
pub fn canonical_feed(f: &Feed) -> (r: String)
    ensures
        r@ == canon_feed(f@),
{
    let mut s: String = String::from_str("feed;");
    append_opt_id(&mut s, "u:", &f.uuid);
    append_opt(&mut s, "t:", &f.title);
    append_opt(&mut s, "d:", &f.description);
    append_opt(&mut s, "l:", &f.link);
    append_opt(&mut s, "c:", &f.category);
    append_opt(&mut s, "r:", &f.copyright);
    match &f.image {
        Option::Some(im) => {
            s.append("im:");
            s.append(im.url.as_str());
            s.append(";");
            s.append(im.title.as_str());
            s.append(";");
            s.append(im.link.as_str());
            s.append(";");
        },
        Option::None => {},
    }
    append_opt(&mut s, "g:", &f.language);
    match &f.items {
        Option::Some(rep) => {
            s.append("i:");
            match rep {
                ItemsRepresentation::ReferencesOnly(refs) => append_refs(&mut s, refs),
                ItemsRepresentation::Materialized(items) => append_item_ids(&mut s, items),
            }
            s.append(";");
        },
        Option::None => {},
    }
    proof {
        assert(s@ =~= canon_feed(f@));
    }
    s
}

/// Render a feed item's canonical form.
pub fn canonical_feed_item(it: &FeedItem) -> (r: String)
    ensures
        r@ == canon_item(it@),
{
    let mut s: String = String::from_str("item;");
    append_opt_id(&mut s, "u:", &it.uuid);
    append_opt(&mut s, "t:", &it.title);
    append_opt(&mut s, "l:", &it.link);
    append_opt(&mut s, "d:", &it.description);
    append_opt(&mut s, "a:", &it.author);
    append_opt(&mut s, "c:", &it.comments);
    match &it.enclosure {
        Option::Some(en) => {
            s.append("en:");
            s.append(en.url.as_str());
            s.append(";");
            s.append(en.length.as_str());
            s.append(";");
            s.append(en.mime_type.as_str());
            s.append(";");
        },
        Option::None => {},
    }
    proof {
        assert(s@ =~= canon_item(it@));
    }
    s
}

/// Compute the checksum of a feed: canonicalize it, then hash. A feed whose
/// fields are representable strings always canonicalizes, so this engine
/// never reports a serialization failure.
pub fn checksum_feed(f: &Feed) -> (r: Result<String, ChecksumError>)
    ensures
        r matches Ok(c) && c@ == feed_checksum_of(f@),
{
    let canon: String = canonical_feed(f);
    Ok(sha3_256_hex(canon.as_str()))
}

/// Compute the checksum of a feed item; see `checksum_feed`.
pub fn checksum_feed_item(it: &FeedItem) -> (r: Result<String, ChecksumError>)
    ensures
        r matches Ok(c) && c@ == item_checksum_of(it@),
{
    let canon: String = canonical_feed_item(it);
    Ok(sha3_256_hex(canon.as_str()))
}

// ---------------------------------------------------------------------------
// Validation and derived forms
// ---------------------------------------------------------------------------
/// An optional text field holds a non-empty value.
pub open spec fn field_present(v: Option<Seq<char>>) -> bool {
    v matches Option::Some(s) && s.len() > 0
}

/// A feed carries all of its required content fields.
pub open spec fn required_present(f: FeedView) -> bool {
    field_present(f.title) && field_present(f.description) && field_present(f.link)
}

/// A feed item carries all of its required content fields.
pub open spec fn item_required_present(it: FeedItemView) -> bool {
    field_present(it.title) && field_present(it.link) && field_present(it.description)
}

/// The first missing required field of a feed, if any.
pub open spec fn first_missing(f: FeedView) -> Option<ValidationError> {
    if !field_present(f.title) {
        Option::Some(ValidationError::MissingTitle)
    } else if !field_present(f.description) {
        Option::Some(ValidationError::MissingDescription)
    } else if !field_present(f.link) {
        Option::Some(ValidationError::MissingLink)
    } else {
        Option::None
    }
}

/// The first missing required field of a feed item, if any. The fields are
/// probed in the same order as for a feed.
pub open spec fn item_first_missing(it: FeedItemView) -> Option<ValidationError> {
    if !field_present(it.title) {
        Option::Some(ValidationError::MissingTitle)
    } else if !field_present(it.description) {
        Option::Some(ValidationError::MissingDescription)
    } else if !field_present(it.link) {
        Option::Some(ValidationError::MissingLink)
    } else {
        Option::None
    }
}

impl FeedView {
    /// This feed with its checksum field replaced by the digest of its
    /// canonical form.
    pub open spec fn recomputed(self) -> FeedView {
        FeedView { checksum: Option::Some(feed_checksum_of(self)), ..self }
    }

    /// This feed with another item collection.
    pub open spec fn with_items(self, items: Option<ItemsRepresentationView>) -> FeedView {
        FeedView { items, ..self }
    }

    /// The identifiers this feed references, an empty sequence if it has no
    /// item collection yet.
    pub open spec fn refs(self) -> Seq<u128> {
        match self.items {
            Option::Some(rep) => rep_refs(rep),
            Option::None => Seq::empty(),
        }
    }

    /// The item collection reduced to bare identifiers.
    pub open spec fn compacted(self) -> FeedView {
        match self.items {
            Option::None => self,
            Option::Some(rep) => self.with_items(
                Option::Some(ItemsRepresentationView::ReferencesOnly(rep_refs(rep))),
            ),
        }
    }
}

impl FeedItemView {
    /// This item with its checksum field replaced by the digest of its
    /// canonical form.
    pub open spec fn recomputed(self) -> FeedItemView {
        FeedItemView { checksum: Option::Some(item_checksum_of(self)), ..self }
    }
}

// ---------------------------------------------------------------------------
// Checksum laws
// ---------------------------------------------------------------------------
/// The canonical form does not read the checksum field, so recomputing the
/// checksum of an unchanged aggregate re-derives the same digest: once a
/// feed's checksum is current, recomputing it is the identity.
pub proof fn lemma_checksum_idempotent(f: FeedView)
    ensures
        feed_checksum_of(f.recomputed()) == feed_checksum_of(f),
        checksum_current(f.recomputed()),
        f.recomputed().recomputed() == f.recomputed(),
{
    assert(canon_feed(f.recomputed()) == canon_feed(f));
}

/// The same law for feed items.
pub proof fn lemma_item_checksum_idempotent(it: FeedItemView)
    ensures
        item_checksum_of(it.recomputed()) == item_checksum_of(it),
        item_checksum_current(it.recomputed()),
        it.recomputed().recomputed() == it.recomputed(),
{
    assert(canon_item(it.recomputed()) == canon_item(it));
}

/// The canonical form reads the item identifiers only, so compaction changes
/// neither the canonical form nor the checksum: a current checksum stays
/// current across compaction.
pub proof fn lemma_compact_preserves_checksum(f: FeedView)
    ensures
        canon_feed(f.compacted()) == canon_feed(f),
        feed_checksum_of(f.compacted()) == feed_checksum_of(f),
        checksum_current(f) ==> checksum_current(f.compacted()),
{
    match f.items {
        Option::Some(rep) => {
            assert(rep_refs(ItemsRepresentationView::ReferencesOnly(rep_refs(rep))) == rep_refs(
                rep,
            ));
        },
        Option::None => {},
    }
}

// ---------------------------------------------------------------------------
// Aggregate operations
// ---------------------------------------------------------------------------
impl Feed {
    /// Construct a feed from its required content fields. Fails with the
    /// first missing (empty) field; otherwise the feed is ready: it has a
    /// fresh non-nil identifier, no items, and a current checksum.
    pub fn construct(title: String, description: String, link: String) -> (r: Result<
        Feed,
        ValidationError,
    >)
        ensures
            match r {
                Ok(f) => title@.len() > 0 && description@.len() > 0 && link@.len() > 0 && (
                f@.uuid matches Option::Some(u) && u != 0) && f@.title == Option::Some(title@)
                    && f@.description == Option::Some(description@) && f@.link == Option::Some(
                    link@,
                ) && f@.category is None && f@.copyright is None && f@.image is None
                    && f@.language is None && f@.items is None && checksum_current(f@),
                Err(e) => Option::Some(e) == first_missing(
                    FeedView {
                        uuid: Option::None,
                        title: Option::Some(title@),
                        description: Option::Some(description@),
                        link: Option::Some(link@),
                        category: Option::None,
                        copyright: Option::None,
                        image: Option::None,
                        language: Option::None,
                        items: Option::None,
                        checksum: Option::None,
                    },
                ) && (title@.len() == 0 || description@.len() == 0 || link@.len() == 0),
            },
    {
        if title.as_str().is_empty() {
            return Err(ValidationError::MissingTitle);
        }
        if description.as_str().is_empty() {
            return Err(ValidationError::MissingDescription);
        }
        if link.as_str().is_empty() {
            return Err(ValidationError::MissingLink);
        }
        let mut feed = Feed {
            uuid: Some(fresh_uuid()),
            title: Some(title),
            description: Some(description),
            link: Some(link),
            category: None,
            copyright: None,
            image: None,
            language: None,
            items: None,
            checksum: None,
        };
        feed.compute_checksum();
        Ok(feed)
    }

    /// Construct a feed from a caller-supplied model, as the create
    /// operation of a service does: validate the required content fields,
    /// mint a fresh identifier, keep the optional metadata, drop the model's
    /// item collection, and derive the checksum.
    pub fn new_from_model(model: Feed) -> (r: Result<Feed, ValidationError>)
        ensures
            match r {
                Ok(f) => first_missing(model@) is None && (f@.uuid matches Option::Some(u) && u
                    != 0) && f@.title == model@.title && f@.description == model@.description
                    && f@.link == model@.link && f@.category == model@.category && f@.copyright
                    == model@.copyright && f@.image == model@.image && f@.language
                    == model@.language && f@.items is None && checksum_current(f@),
                Err(e) => first_missing(model@) == Option::Some(e),
            },
    {
        match &model.title {
            Some(t) => {
                if t.as_str().is_empty() {
                    return Err(ValidationError::MissingTitle);
                }
            },
            None => {
                return Err(ValidationError::MissingTitle);
            },
        }
        match &model.description {
            Some(d) => {
                if d.as_str().is_empty() {
                    return Err(ValidationError::MissingDescription);
                }
            },
            None => {
                return Err(ValidationError::MissingDescription);
            },
        }
        match &model.link {
            Some(l) => {
                if l.as_str().is_empty() {
                    return Err(ValidationError::MissingLink);
                }
            },
            None => {
                return Err(ValidationError::MissingLink);
            },
        }
        let mut feed = Feed {
            uuid: Some(fresh_uuid()),
            title: model.title,
            description: model.description,
            link: model.link,
            category: model.category,
            copyright: model.copyright,
            image: model.image,
            language: model.language,
            items: None,
            checksum: None,
        };
        feed.compute_checksum();
        Ok(feed)
    }

    /// The identifier of this feed.
    pub fn get_uuid(&self) -> (r: Option<u128>)
        ensures
            r == self@.uuid,
    {
        self.uuid
    }

    /// The stored checksum of this feed.
    pub fn get_checksum(&self) -> (r: Option<String>)
        ensures
            opt_str_view(r) == self@.checksum,
    {
        match &self.checksum {
            Some(c) => Some(c.clone()),
            None => None,
        }
    }

    /// Recompute this feed's checksum from its current content. The content
    /// fields are left untouched; afterwards the checksum is current.
    pub fn compute_checksum(&mut self)
        ensures
            final(self)@ == old(self)@.recomputed(),
            checksum_current(final(self)@),
    {
        let canon: String = canonical_feed(self);
        let digest: String = sha3_256_hex(canon.as_str());
        self.checksum = Some(digest);
        proof {
            lemma_checksum_idempotent(old(self)@);
        }
    }

    /// Reduce a materialized item collection to bare identifiers, dropping
    /// any item that has none. A feed without items, or one already reduced,
    /// is left as it is. The checksum is unaffected: the canonical form
    /// reads the identifiers only.
    pub fn compact(&mut self)
        ensures
            final(self)@ == old(self)@.compacted(),
    {
        let ids: Vec<u128> = match &self.items {
            None => {
                return ;
            },
            Some(ItemsRepresentation::ReferencesOnly(_)) => {
                return ;
            },
            Some(ItemsRepresentation::Materialized(items)) => {
                let mut ids: Vec<u128> = Vec::new();
                let mut i: usize = 0;
                while i < items.len()
                    invariant
                        i <= items.len(),
                        ids@ == item_ids_of(items_view(items@.take(i as int))),
                    decreases items.len() - i,
                {
                    proof {
                        assert(items_view(items@.take(i + 1 as int)).drop_last() =~= items_view(
                            items@.take(i as int),
                        ));
                        assert(items_view(items@.take(i + 1 as int)).last() == items@[i as int]@);
                    }
                    match &items[i].uuid {
                        Some(id) => {
                            ids.push(*id);
                        },
                        None => {},
                    }
                    proof {
                        assert(ids@ =~= item_ids_of(items_view(items@.take(i + 1 as int))));
                    }
                    i = i + 1;
                }
                proof {
                    assert(items_view(items@.take(items@.len() as int)) =~= items_view(items@));
                }
                ids
            },
        };
        self.items = Some(ItemsRepresentation::ReferencesOnly(ids));
    }
}

impl FeedItem {
    /// Construct a feed item from its required content fields. Fails with
    /// the first missing (empty) field; otherwise the item has a fresh
    /// non-nil identifier and a current checksum.
    pub fn construct(title: String, link: String, description: String) -> (r: Result<
        FeedItem,
        ValidationError,
    >)
        ensures
            match r {
                Ok(it) => title@.len() > 0 && link@.len() > 0 && description@.len() > 0 && (
                it@.uuid matches Option::Some(u) && u != 0) && it@.title == Option::Some(title@)
                    && it@.link == Option::Some(link@) && it@.description == Option::Some(
                    description@,
                ) && it@.author is None && it@.comments is None && it@.enclosure is None
                    && item_checksum_current(it@),
                Err(e) => (title@.len() == 0 || description@.len() == 0 || link@.len() == 0) && (
                if title@.len() == 0 {
                    e == ValidationError::MissingTitle
                } else if description@.len() == 0 {
                    e == ValidationError::MissingDescription
                } else {
                    e == ValidationError::MissingLink
                }),
            },
    {
        if title.as_str().is_empty() {
            return Err(ValidationError::MissingTitle);
        }
        if description.as_str().is_empty() {
            return Err(ValidationError::MissingDescription);
        }
        if link.as_str().is_empty() {
            return Err(ValidationError::MissingLink);
        }
        let mut item = FeedItem {
            uuid: Some(fresh_uuid()),
            title: Some(title),
            link: Some(link),
            description: Some(description),
            author: None,
            comments: None,
            enclosure: None,
            checksum: None,
        };
        item.compute_checksum();
        Ok(item)
    }

    /// Construct a feed item from a caller-supplied model: validate the
    /// required content fields, mint a fresh identifier, keep the optional
    /// metadata, and derive the checksum.
    pub fn new_from_model(model: FeedItem) -> (r: Result<FeedItem, ValidationError>)
        ensures
            match r {
                Ok(it) => item_first_missing(model@) is None && (it@.uuid matches Option::Some(u)
                    && u != 0) && it@.title == model@.title && it@.link == model@.link
                    && it@.description == model@.description && it@.author == model@.author
                    && it@.comments == model@.comments && it@.enclosure == model@.enclosure
                    && item_checksum_current(it@),
                Err(e) => item_first_missing(model@) == Option::Some(e),
            },
    {
        match &model.title {
            Some(t) => {
                if t.as_str().is_empty() {
                    return Err(ValidationError::MissingTitle);
                }
            },
            None => {
                return Err(ValidationError::MissingTitle);
            },
        }
        match &model.description {
            Some(d) => {
                if d.as_str().is_empty() {
                    return Err(ValidationError::MissingDescription);
                }
            },
            None => {
                return Err(ValidationError::MissingDescription);
            },
        }
        match &model.link {
            Some(l) => {
                if l.as_str().is_empty() {
                    return Err(ValidationError::MissingLink);
                }
            },
            None => {
                return Err(ValidationError::MissingLink);
            },
        }
        let mut item = FeedItem {
            uuid: Some(fresh_uuid()),
            title: model.title,
            link: model.link,
            description: model.description,
            author: model.author,
            comments: model.comments,
            enclosure: model.enclosure,
            checksum: None,
        };
        item.compute_checksum();
        Ok(item)
    }

    /// The identifier of this feed item.
    pub fn get_uuid(&self) -> (r: Option<u128>)
        ensures
            r == self@.uuid,
    {
        self.uuid
    }

    /// The stored checksum of this feed item.
    pub fn get_checksum(&self) -> (r: Option<String>)
        ensures
            opt_str_view(r) == self@.checksum,
    {
        match &self.checksum {
            Some(c) => Some(c.clone()),
            None => None,
        }
    }

    /// Recompute this item's checksum from its current content.
    pub fn compute_checksum(&mut self)
        ensures
            final(self)@ == old(self)@.recomputed(),
            item_checksum_current(final(self)@),
    {
        let canon: String = canonical_feed_item(self);
        let digest: String = sha3_256_hex(canon.as_str());
        self.checksum = Some(digest);
        proof {
            lemma_item_checksum_idempotent(old(self)@);
        }
    }
}

} // verus!
