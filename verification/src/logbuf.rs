//! The bounded transcript of what was received and sent, and its rendering.

use crate::clock::now_millis;
use crate::encoding::{TextEncoding, MAX_DECODE_LEN};
use crate::render::{
    blank, highlight, highlighted, hex_text, is_blank, push_hex, push_timestamp, timestamp_text,
};
use crate::text::{chars_of, push_char};
use vstd::prelude::*;

verus! {

/// Which way the bytes of an entry travelled.
#[derive(Debug, Clone, Copy, PartialEq, Eq, Structural)]
pub enum Direction {
    Rx,
    Tx,
}

/// One line of the transcript.
#[derive(Debug, Clone)]
pub struct LogEntry {
    /// Milliseconds since the epoch at which the entry was stored.
    pub timestamp: u64,
    pub direction: Direction,
    pub data: Vec<u8>,
}

/// What an entry holds.
pub struct EntryModel {
    pub timestamp: u64,
    pub direction: Direction,
    pub data: Seq<u8>,
}

impl View for LogEntry {
    type V = EntryModel;

    open spec fn view(&self) -> EntryModel {
        EntryModel { timestamp: self.timestamp, direction: self.direction, data: self.data@ }
    }
}

/// What a store holds: its entries, oldest first, its capacity, and how it
/// is to be shown.
pub struct StoreModel {
    pub entries: Seq<EntryModel>,
    pub max_entries: nat,
    pub show_rx: bool,
    pub show_tx: bool,
    pub keywords: Seq<Seq<char>>,
}

/// The label that opens the line of an entry.
pub open spec fn direction_prefix(direction: Direction) -> Seq<char> {
    match direction {
        Direction::Rx => "RX: "@,
        Direction::Tx => "TX: "@,
    }
}

/// A decoded text with its keywords highlighted, ending in a line feed.
pub open spec fn text_line(decoded: Seq<char>, keywords: Seq<Seq<char>>) -> Seq<char> {
    let body = highlighted(decoded, keywords);
    if body.len() > 0 && body.last() == '\n' {
        body
    } else {
        body.push('\n')
    }
}

/// The line that an entry contributes to a transcript, without regard to the
/// direction filter. In hex mode every entry gives a line; in text mode an
/// entry whose decoded text is blank gives nothing.
pub open spec fn entry_text(
    entry: EntryModel,
    keywords: Seq<Seq<char>>,
    show_timestamp: bool,
    show_hex: bool,
    encoding: TextEncoding,
) -> Seq<char> {
    let stamp = if show_timestamp {
        timestamp_text(entry.timestamp)
    } else {
        Seq::empty()
    };
    if show_hex {
        stamp + direction_prefix(entry.direction) + hex_text(entry.data) + seq!['\n']
    } else {
        let decoded = encoding.decoded(entry.data);
        if is_blank(decoded) {
            Seq::empty()
        } else {
            stamp + direction_prefix(entry.direction) + text_line(decoded, keywords)
        }
    }
}

impl StoreModel {
    /// Whether the store holds no more entries than its capacity.
    pub open spec fn bounded(self) -> bool {
        self.entries.len() <= self.max_entries
    }

    /// The store after one more entry: it is appended, and if that exceeds
    /// the capacity, the oldest entry leaves.
    pub open spec fn pushed(self, entry: EntryModel) -> StoreModel {
        let grown = self.entries.push(entry);
        StoreModel {
            entries: if grown.len() > self.max_entries {
                grown.drop_first()
            } else {
                grown
            },
            ..self
        }
    }

    /// Whether entries of `direction` pass the filter.
    pub open spec fn shows(self, direction: Direction) -> bool {
        match direction {
            Direction::Rx => self.show_rx,
            Direction::Tx => self.show_tx,
        }
    }

    /// The line of the entry at `index`, empty if the filter hides it.
    pub open spec fn line(
        self,
        index: int,
        show_timestamp: bool,
        show_hex: bool,
        encoding: TextEncoding,
    ) -> Seq<char> {
        let entry = self.entries[index];
        if self.shows(entry.direction) {
            entry_text(entry, self.keywords, show_timestamp, show_hex, encoding)
        } else {
            Seq::empty()
        }
    }

    /// The lines of the first `count` entries, one after the other.
    pub open spec fn text_upto(
        self,
        count: int,
        show_timestamp: bool,
        show_hex: bool,
        encoding: TextEncoding,
    ) -> Seq<char>
        decreases count,
    {
        if count <= 0 {
            Seq::empty()
        } else {
            self.text_upto(count - 1, show_timestamp, show_hex, encoding) + self.line(
                count - 1,
                show_timestamp,
                show_hex,
                encoding,
            )
        }
    }

    /// The whole transcript as text.
    pub open spec fn text(
        self,
        show_timestamp: bool,
        show_hex: bool,
        encoding: TextEncoding,
    ) -> Seq<char> {
        self.text_upto(self.entries.len() as int, show_timestamp, show_hex, encoding)
    }
}

impl StoreModel {
    /// The store after the entries were pushed one after the other.
    pub open spec fn pushed_all(self, pushes: Seq<EntryModel>) -> StoreModel
        decreases pushes.len(),
    {
        if pushes.len() == 0 {
            self
        } else {
            self.pushed_all(pushes.drop_last()).pushed(pushes.last())
        }
    }
}

/// The last `count` elements of `all`, or all of them where there are fewer.
pub open spec fn most_recent(all: Seq<EntryModel>, count: nat) -> Seq<EntryModel> {
    if all.len() > count {
        all.skip(all.len() - count)
    } else {
        all
    }
}

/// A store is bounded and forgets the oldest first: after any number of
/// pushes it holds the most recent entries, as many as its capacity allows,
/// in the order in which they came. Filter and keywords are untouched.
pub proof fn lemma_store_keeps_most_recent(model: StoreModel, pushes: Seq<EntryModel>)
    requires
        model.bounded(),
    ensures
        model.pushed_all(pushes) == (StoreModel {
            entries: most_recent(model.entries + pushes, model.max_entries),
            ..model
        }),
        model.pushed_all(pushes).bounded(),
        pushes.len() >= model.max_entries ==> model.pushed_all(pushes).entries == pushes.skip(
            pushes.len() - model.max_entries,
        ),
    decreases pushes.len(),
{
    if pushes.len() > 0 {
        lemma_store_keeps_most_recent(model, pushes.drop_last());
        assert(model.pushed_all(pushes).entries =~= most_recent(
            model.entries + pushes,
            model.max_entries,
        ));
    }
}

/// A transcript that keeps the most recent entries up to a fixed number.
pub struct LogStore {
    entries: Vec<LogEntry>,
    max_entries: usize,
    filter_rx: bool,
    filter_tx: bool,
    highlight_keywords: Vec<String>,
}

impl View for LogStore {
    type V = StoreModel;

    closed spec fn view(&self) -> StoreModel {
        StoreModel {
            entries: self.entries.deep_view(),
            max_entries: self.max_entries as nat,
            show_rx: self.filter_rx,
            show_tx: self.filter_tx,
            keywords: self.highlight_keywords.deep_view(),
        }
    }
}

impl DeepView for LogEntry {
    type V = EntryModel;

    open spec fn deep_view(&self) -> EntryModel {
        self@
    }
}

/// Appends the line of `entry` to `out`.
fn push_entry(
    out: &mut String,
    entry: &LogEntry,
    keywords: &Vec<Vec<char>>,
    show_timestamp: bool,
    show_hex: bool,
    encoding: TextEncoding,
)
    requires
        entry.data@.len() <= MAX_DECODE_LEN,
    ensures
        final(out)@ == old(out)@ + entry_text(
            entry@,
            keywords.deep_view(),
            show_timestamp,
            show_hex,
            encoding,
        ),
{
    if show_hex {
        if show_timestamp {
            push_timestamp(out, entry.timestamp);
        }
        push_prefix(out, entry.direction);
        push_hex(out, entry.data.as_slice());
        push_char(out, '\n');
    } else {
        let decoded = encoding.decode(entry.data.as_slice());
        let chars = chars_of(decoded.as_str());
        if blank(&chars) {
            assert(out@ =~= old(out)@ + Seq::<char>::empty());
            return ;
        }
        let body = highlight(chars, keywords);
        if show_timestamp {
            push_timestamp(out, entry.timestamp);
        }
        push_prefix(out, entry.direction);
        let mut i: usize = 0;
        let ghost head = out@;
        while i < body.len()
            invariant
                i <= body@.len(),
                out@ == head + body@.take(i as int),
            decreases body@.len() - i,
        {
            push_char(out, body[i]);
            i += 1;
        }
        if body.len() == 0 || body[body.len() - 1] != '\n' {
            push_char(out, '\n');
        }
    }
}

/// Appends the label of `direction` to `out`.
fn push_prefix(out: &mut String, direction: Direction)
    ensures
        final(out)@ == old(out)@ + direction_prefix(direction),
{
    match direction {
        Direction::Rx => out.append("RX: "),
        Direction::Tx => out.append("TX: "),
    }
}

impl LogStore {
    #[verifier::type_invariant]
    spec fn well_formed(self) -> bool {
        &&& self.entries@.len() <= self.max_entries
        &&& forall|i: int|
            0 <= i < self.entries@.len() ==> (#[trigger] self.entries@[i]).data@.len()
                <= MAX_DECODE_LEN
    }

    /// An empty store that keeps at most `max_entries` entries and shows
    /// both directions, with no keyword highlighted.
    pub fn new(max_entries: usize) -> (store: Self)
        ensures
            store@ == (StoreModel {
                entries: Seq::empty(),
                max_entries: max_entries as nat,
                show_rx: true,
                show_tx: true,
                keywords: Seq::empty(),
            }),
            store@.bounded(),
    {
        let store = Self {
            entries: Vec::new(),
            max_entries,
            filter_rx: true,
            filter_tx: true,
            highlight_keywords: Vec::new(),
        };
        assert(store.entries.deep_view() =~= Seq::<EntryModel>::empty());
        assert(store.highlight_keywords.deep_view() =~= Seq::<Seq<char>>::empty());
        store
    }

    /// Chooses which directions a transcript shows. The entries stay as
    /// they are.
    pub fn set_filter(&mut self, show_rx: bool, show_tx: bool)
        ensures
            final(self)@ == (StoreModel { show_rx, show_tx, ..old(self)@ }),
            final(self)@.bounded(),
    {
        proof {
            use_type_invariant(&*self);
        }
        self.filter_rx = show_rx;
        self.filter_tx = show_tx;
    }

    /// Chooses the keywords a transcript highlights. The entries stay as
    /// they are.
    pub fn set_highlight_keywords(&mut self, keywords: Vec<String>)
        ensures
            final(self)@ == (StoreModel { keywords: keywords.deep_view(), ..old(self)@ }),
            final(self)@.bounded(),
    {
        proof {
            use_type_invariant(&*self);
        }
        self.highlight_keywords = keywords;
    }

    /// Stores an entry stamped `timestamp`; the oldest entry leaves if the
    /// store was full.
    pub fn push_at(&mut self, timestamp: u64, direction: Direction, data: Vec<u8>)
        requires
            data@.len() <= MAX_DECODE_LEN,
        ensures
            final(self)@ == old(self)@.pushed(
                EntryModel { timestamp, direction, data: data@ },
            ),
            final(self)@.bounded(),
    {
        proof {
            use_type_invariant(&*self);
        }
        let ghost before = self.entries.deep_view();
        let ghost entry = EntryModel { timestamp, direction, data: data@ };
        if self.max_entries == 0 {
            assert(self.entries.deep_view() =~= before.push(entry).drop_first());
            return ;
        }
        let mut entries: Vec<LogEntry> = Vec::new();
        std::mem::swap(&mut self.entries, &mut entries);
        if entries.len() >= self.max_entries {
            entries.remove(0);
        }
        entries.push(LogEntry { timestamp, direction, data });
        self.entries = entries;
        assert(self.entries.deep_view() =~= old(self)@.pushed(entry).entries);
    }

    /// Stores an entry stamped with the current time of the system clock;
    /// the oldest entry leaves if the store was full.
    pub fn push(&mut self, direction: Direction, data: Vec<u8>)
        requires
            data@.len() <= MAX_DECODE_LEN,
        ensures
            exists|timestamp: u64|
                final(self)@ == old(self)@.pushed(
                    EntryModel { timestamp, direction, data: data@ },
                ),
            final(self)@.bounded(),
    {
        let timestamp = now_millis();
        self.push_at(timestamp, direction, data);
    }

    /// The stored entries, oldest first. There are never more of them than
    /// the capacity.
    pub fn entries(&self) -> (entries: &[LogEntry])
        ensures
            entries.deep_view() == self@.entries,
            self@.bounded(),
    {
        proof {
            use_type_invariant(self);
        }
        self.entries.as_slice()
    }

    /// Forgets all entries. Capacity, filter and keywords stay.
    pub fn clear(&mut self)
        ensures
            final(self)@ == (StoreModel { entries: Seq::empty(), ..old(self)@ }),
            final(self)@.bounded(),
    {
        proof {
            use_type_invariant(&*self);
        }
        self.entries = Vec::new();
        assert(self.entries.deep_view() =~= Seq::<EntryModel>::empty());
    }

    /// The transcript as text, decoded without a given encoding.
    pub fn to_text(&self, show_timestamp: bool, show_hex: bool) -> (out: String)
        ensures
            out@ == self@.text(show_timestamp, show_hex, TextEncoding::Auto),
    {
        self.to_text_with_encoding(show_timestamp, show_hex, TextEncoding::Auto)
    }

    /// The transcript as text: the lines of the entries that pass the
    /// filter, oldest first.
    pub fn to_text_with_encoding(
        &self,
        show_timestamp: bool,
        show_hex: bool,
        encoding: TextEncoding,
    ) -> (out: String)
        ensures
            out@ == self@.text(show_timestamp, show_hex, encoding),
    {
        proof {
            use_type_invariant(self);
        }
        let mut keywords: Vec<Vec<char>> = Vec::new();
        let mut k: usize = 0;
        while k < self.highlight_keywords.len()
            invariant
                k <= self.highlight_keywords@.len(),
                keywords@.len() == k,
                keywords.deep_view() == self.highlight_keywords.deep_view().take(k as int),
            decreases self.highlight_keywords@.len() - k,
        {
            let word = chars_of(self.highlight_keywords[k].as_str());
            let ghost before = keywords;
            keywords.push(word);
            k += 1;
            assert forall|j: int| 0 <= j < k implies keywords.deep_view()[j]
                == self.highlight_keywords.deep_view()[j] by {
                if j < k - 1 {
                    assert(before.deep_view()[j] == self.highlight_keywords.deep_view().take(
                        k - 1,
                    )[j]);
                }
            }
        }
        let mut out = String::new();
        let mut i: usize = 0;
        while i < self.entries.len()
            invariant
                i <= self.entries@.len(),
                keywords.deep_view() == self@.keywords,
                forall|j: int|
                    0 <= j < self.entries@.len() ==> (#[trigger] self.entries@[j]).data@.len()
                        <= MAX_DECODE_LEN,
                out@ == self@.text_upto(i as int, show_timestamp, show_hex, encoding),
            decreases self.entries@.len() - i,
        {
            let entry = &self.entries[i];
            let shown = match entry.direction {
                Direction::Rx => self.filter_rx,
                Direction::Tx => self.filter_tx,
            };
            if shown {
                push_entry(&mut out, entry, &keywords, show_timestamp, show_hex, encoding);
            }
            i += 1;
        }
        out
    }
}

} // verus!
