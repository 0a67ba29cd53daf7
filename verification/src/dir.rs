//! Directory entries, and how the entries of a directory are gathered.

use vstd::prelude::*;
use vstd::string::*;

use crate::sys;
use crate::text;
use crate::text::lossy_text;

verus! {

/// An entry of a directory: its name, and whether it is itself a directory.
#[derive(Debug)]
pub struct DirEntry {
    pub name: String,
    pub is_dir: bool,
}

/// A `DirEntry`, its name taken as text.
pub struct EntryView {
    pub name: Seq<char>,
    pub is_dir: bool,
}

impl View for DirEntry {
    type V = EntryView;

    open spec fn view(&self) -> EntryView {
        EntryView { name: self.name@, is_dir: self.is_dir }
    }
}

/// The entries of a directory as text.
pub open spec fn entries_view(entries: Seq<DirEntry>) -> Seq<EntryView> {
    Seq::new(entries.len(), |i: int| entries[i]@)
}

/// The entry that libnfs reported.
pub open spec fn entry_of(name: Seq<u8>, kind: u32) -> EntryView {
    EntryView { name: text::lossy_utf8(name), is_dir: kind == sys::DT_DIR }
}

impl DirEntry {
    /// The entry that libnfs reported.
    pub fn from_raw(ent: &sys::nfsdirent) -> (r: DirEntry)
        ensures
            r@ == entry_of(ent.name@, ent.kind),
            r.name@ == text::lossy_utf8(ent.name@),
            r.is_dir == (ent.kind == 2),
            forall|chars: Seq<char>|
                ent.name@ == #[trigger] vstd::utf8::encode_utf8(chars) ==> r.name@ == chars,
    {
        DirEntry { name: lossy_text(ent.name.as_slice()), is_dir: ent.kind == sys::DT_DIR }
    }
}

/// The listing of a directory that is open: its entries are read one by one,
/// the directory is closed, and then the entries are there for the one who
/// asked.
#[derive(Debug)]
pub enum Listing {
    /// The next entry is wanted; these were read.
    Reading(Vec<DirEntry>),
    /// The directory is to be closed.
    Closing(Vec<DirEntry>),
    /// The entries are complete.
    Complete(Vec<DirEntry>),
}

/// A `Listing`, the names taken as text.
pub enum ListingView {
    Reading(Seq<EntryView>),
    Closing(Seq<EntryView>),
    Complete(Seq<EntryView>),
}

impl View for Listing {
    type V = ListingView;

    open spec fn view(&self) -> ListingView {
        match self {
            Listing::Reading(entries) => ListingView::Reading(entries_view(entries@)),
            Listing::Closing(entries) => ListingView::Closing(entries_view(entries@)),
            Listing::Complete(entries) => ListingView::Complete(entries_view(entries@)),
        }
    }
}

/// What came of a step of a listing.
#[derive(Debug)]
pub enum ListingAnswer {
    /// The next entry, or nothing where there is none left.
    Entry(Option<sys::nfsdirent>),
    /// The directory was closed.
    Closed,
}

/// The listing after a step of it. An answer to something else changes nothing.
pub open spec fn listing_answer(s: ListingView, answer: ListingAnswer) -> ListingView {
    match (s, answer) {
        (ListingView::Reading(entries), ListingAnswer::Entry(Some(ent))) => ListingView::Reading(
            entries.push(entry_of(ent.name@, ent.kind)),
        ),
        (ListingView::Reading(entries), ListingAnswer::Entry(None)) => ListingView::Closing(
            entries,
        ),
        (ListingView::Closing(entries), ListingAnswer::Closed) => ListingView::Complete(entries),
        _ => s,
    }
}

impl Listing {
    /// A listing of which nothing is read yet.
    pub fn new() -> (r: Listing)
        ensures
            r@ == ListingView::Reading(seq![]),
            r matches Listing::Reading(entries) && entries@.len() == 0,
    {
        let entries: Vec<DirEntry> = Vec::new();
        assert(entries_view(entries@) =~= seq![]);
        Listing::Reading(entries)
    }

    /// The listing after a step of it.
    pub fn answer(self, answer: ListingAnswer) -> (r: Listing)
        ensures
            r@ == listing_answer(self@, answer),
            match (self, answer) {
                (Listing::Reading(entries), ListingAnswer::Entry(Some(ent))) => {
                    &&& r matches Listing::Reading(longer)
                    &&& longer@.len() == entries@.len() + 1
                    &&& longer@.drop_last() == entries@
                    &&& longer@.last().name@ == text::lossy_utf8(ent.name@)
                    &&& longer@.last().is_dir == (ent.kind == 2)
                },
                (Listing::Reading(entries), ListingAnswer::Entry(None)) => r == Listing::Closing(
                    entries,
                ),
                (Listing::Closing(entries), ListingAnswer::Closed) => r == Listing::Complete(entries),
                _ => r == self,
            },
    {
        match (self, answer) {
            (Listing::Reading(entries), ListingAnswer::Entry(Some(ent))) => {
                let mut entries = entries;
                let ghost before = entries@;
                entries.push(DirEntry::from_raw(&ent));
                assert(entries@.drop_last() =~= before);
                assert(entries_view(entries@) =~= entries_view(before).push(
                    entry_of(ent.name@, ent.kind),
                ));
                Listing::Reading(entries)
            },
            (Listing::Reading(entries), ListingAnswer::Entry(None)) => Listing::Closing(entries),
            (Listing::Closing(entries), ListingAnswer::Closed) => Listing::Complete(entries),
            (listing, _) => listing,
        }
    }
}

/// The listing after the entries were read.
pub open spec fn listing_reads(s: ListingView, ents: Seq<sys::nfsdirent>) -> ListingView
    decreases ents.len(),
{
    if ents.len() == 0 {
        s
    } else {
        listing_answer(
            listing_reads(s, ents.drop_last()),
            ListingAnswer::Entry(Some(ents.last())),
        )
    }
}

/// A listing holds the entries that libnfs reported, all of them and in their
/// order, and the directory is closed before they are handed out.
pub proof fn law_listing_is_faithful(ents: Seq<sys::nfsdirent>)
    ensures
        ({
            let read = listing_reads(ListingView::Reading(seq![]), ents);
            let ended = listing_answer(read, ListingAnswer::Entry(None));
            let entries = Seq::new(ents.len(), |i: int| entry_of(ents[i].name@, ents[i].kind));
            &&& read == ListingView::Reading(entries)
            &&& ended == ListingView::Closing(entries)
            &&& listing_answer(ended, ListingAnswer::Closed) == ListingView::Complete(entries)
        }),
    decreases ents.len(),
{
    let entries = Seq::new(ents.len(), |i: int| entry_of(ents[i].name@, ents[i].kind));
    if ents.len() == 0 {
        assert(entries =~= seq![]);
    } else {
        let before = ents.drop_last();
        law_listing_is_faithful(before);
        let earlier = Seq::new(
            before.len(),
            |i: int| entry_of(before[i].name@, before[i].kind),
        );
        assert(entries =~= earlier.push(entry_of(ents.last().name@, ents.last().kind)));
    }
}

/// The names of the entries.
pub fn entry_names(entries: Vec<DirEntry>) -> (r: Vec<String>)
    ensures
        r@.len() == entries@.len(),
        forall|i: int| 0 <= i < r@.len() ==> (#[trigger] r@[i])@ == entries@[i].name@,
{
    let mut names: Vec<String> = Vec::new();
    let mut i: usize = 0;
    while i < entries.len()
        invariant
            i <= entries@.len(),
            names@.len() == i,
            forall|j: int| 0 <= j < i ==> (#[trigger] names@[j])@ == entries@[j].name@,
        decreases entries@.len() - i,
    {
        names.push(entries[i].name.clone());
        i += 1;
    }
    names
}

/// An entry has the name that libnfs reported, as text, and is a directory exactly
/// where libnfs reported the kind that the NFS protocol has for one, the number
/// two.
pub proof fn law_entry_keeps_name_and_kind(name: Seq<u8>, kind: u32)
    ensures
        entry_of(name, kind).name == text::lossy_utf8(name),
        entry_of(name, kind).is_dir <==> kind == 2,
{
}

/// Entries taken as text are the same entries, in the same order.
pub proof fn law_entries_as_text(entries: Seq<DirEntry>, i: int)
    requires
        0 <= i < entries.len(),
    ensures
        entries_view(entries).len() == entries.len(),
        entries_view(entries)[i].name == entries[i].name@,
        entries_view(entries)[i].is_dir == entries[i].is_dir,
{
}

} // verus!
