use vstd::prelude::*;
use vstd::utf8::encode_utf8;

verus! {

/// Playback progress of the playlist as a whole.
#[derive(Debug, Clone, Copy, PartialEq, Eq, Structural)]
pub enum PlaylistState {
    Stopped,
    Playing,
    Stopping,
}

/// What `next` does after the last entry.
#[derive(Debug, Clone, Copy, PartialEq, Eq, Structural)]
pub enum RepeatMode {
    Off,
    All,
}

/// The key a playlist is sorted by.
#[derive(Debug, Clone, Copy, PartialEq, Eq, Structural)]
pub enum SortOrder {
    StartTime,
    ShortUri,
}

/// The kind of change made to a playlist.
#[derive(Debug, Clone, Copy, PartialEq, Eq, Structural)]
pub enum PlaylistChange {
    Added,
    Removed,
    Updated,
    Reordered,
}

/// A notification of the playlist to the application.
#[derive(Debug, Clone, PartialEq, Eq)]
pub enum PlaylistComponentOutput {
    PlaylistChanged(PlaylistChange),
    /// Playback switches to the entry with this URI.
    SwitchUri(String),
    EndOfPlaylist,
    StateChanged(PlaylistState),
    FileChooserRequest,
}

/// A request of the playlist to its own view.
#[derive(Debug, Clone, Copy, PartialEq, Eq, Structural)]
pub enum PlaylistCommandOutput {
    ShowPlaceholder(bool),
}

/// Why reading an entry's media information failed.
#[derive(Debug, Clone, PartialEq, Eq)]
pub enum DiscoveryError {
    InvalidUri,
    Timeout,
    /// Codecs are missing; the text describes them.
    MissingCodec(String),
    Busy,
    Generic(String),
}

/// The error an entry carries.
#[derive(Debug, Clone, PartialEq, Eq)]
pub enum EntryError {
    /// The path could not be turned into a URI; the text says why.
    InvalidPath(String),
    Discovery(DiscoveryError),
}

/// An entry to add: its URI, its display name and the error met while making the URI.
#[derive(Debug, Clone, PartialEq, Eq)]
pub struct PlaylistEntryInit {
    pub uri: String,
    pub short_uri: Option<String>,
    pub error: Option<String>,
}

/// Media information read for an entry.
#[derive(Debug, Clone, PartialEq, Eq)]
pub struct MediaMetadata {
    /// The URI the media was found at.
    pub uri: String,
    pub duration_ms: Option<u64>,
    /// The recording time, in seconds since the epoch.
    pub start_time: Option<i64>,
    pub info_text: String,
}

/// One entry of the playlist. `handle` identifies it across every change of the playlist.
#[derive(Debug, Clone, PartialEq, Eq)]
pub struct PlaylistEntryModel {
    pub handle: u64,
    pub uri: String,
    pub short_uri: String,
    pub error: Option<EntryError>,
    pub updating: bool,
    pub duration_ms: Option<u64>,
    pub info_text: String,
    pub start_time: Option<i64>,
}

/// Where `add` puts new entries.
#[derive(Debug, Clone, Copy, PartialEq, Eq, Structural)]
pub enum InsertPosition {
    /// Each new entry in turn goes to the front, so they end up in reverse order.
    Front,
    Back,
    Before(u64),
    After(u64),
}

/// The playlist: its entries in play order, the active entry's handle, and its modes.
#[derive(Debug)]
pub struct PlaylistComponentModel {
    pub uris: Vec<PlaylistEntryModel>,
    pub index: Option<u64>,
    pub state: PlaylistState,
    pub show_placeholder: bool,
    pub repeat: RepeatMode,
    pub next_handle: u64,
}

pub open spec fn has_handle(s: Seq<PlaylistEntryModel>, h: u64, i: int) -> bool {
    0 <= i < s.len() && s[i].handle == h
}

pub open spec fn contains_handle(s: Seq<PlaylistEntryModel>, h: u64) -> bool {
    exists|i: int| has_handle(s, h, i)
}

/// The position of the entry with handle `h` (meaningful where there is one).
pub open spec fn position_of_handle(s: Seq<PlaylistEntryModel>, h: u64) -> int {
    choose|i: int| has_handle(s, h, i)
}

pub open spec fn handles_unique(s: Seq<PlaylistEntryModel>) -> bool {
    forall|i: int, j: int|
        0 <= i < s.len() && 0 <= j < s.len() && i != j ==> s[i].handle != s[j].handle
}

/// The active entry after `next`: the following one, else the first when repeating
/// all, else none.
pub open spec fn next_index(s: Seq<PlaylistEntryModel>, index: Option<u64>, repeat: RepeatMode) -> Option<u64> {
    match index {
        None => None,
        Some(h) => {
            let p = position_of_handle(s, h);
            if p + 1 < s.len() {
                Some(s[p + 1].handle)
            } else if repeat == RepeatMode::All && s.len() > 0 {
                Some(s[0].handle)
            } else {
                None
            }
        },
    }
}

/// The active entry after `previous`: the one before, else the same one again.
pub open spec fn previous_index(s: Seq<PlaylistEntryModel>, index: Option<u64>) -> Option<u64> {
    match index {
        None => None,
        Some(h) => {
            let p = position_of_handle(s, h);
            if p >= 1 {
                Some(s[p - 1].handle)
            } else {
                Some(h)
            }
        },
    }
}

/// `r` switches playback to the entry with handle `h` of `s`.
pub open spec fn switches_to(s: Seq<PlaylistEntryModel>, h: u64, r: Option<PlaylistComponentOutput>) -> bool {
    &&& r is Some
    &&& r->0 is SwitchUri
    &&& r->0->SwitchUri_0@ == s[position_of_handle(s, h)].uri@
}

/// The notification of `next` or `previous` that moves the active entry from
/// `index` to `target`.
pub open spec fn navigation_output(
    s: Seq<PlaylistEntryModel>,
    index: Option<u64>,
    target: Option<u64>,
    r: Option<PlaylistComponentOutput>,
) -> bool {
    match index {
        None => r is None,
        Some(_) => match target {
            Some(t) => switches_to(s, t, r),
            None => r == Some(PlaylistComponentOutput::EndOfPlaylist),
        },
    }
}

/// `e` is the new entry made from `init` under handle `h`: not yet read, no media information.
pub open spec fn fresh_entry(e: PlaylistEntryModel, init: PlaylistEntryInit, h: u64) -> bool {
    &&& e.handle == h
    &&& e.uri@ == init.uri@
    &&& e.short_uri@ == (match init.short_uri {
        Some(n) => n@,
        None => init.uri@,
    })
    &&& e.error == (match init.error {
        Some(m) => Some(EntryError::InvalidPath(m)),
        None => None,
    })
    &&& e.updating
    &&& e.duration_ms.is_none()
    &&& e.info_text@.len() == 0
    &&& e.start_time.is_none()
}

/// Where `add` inserts at `pos` into `s`, if the position's handle is known.
pub open spec fn insert_point(s: Seq<PlaylistEntryModel>, pos: InsertPosition) -> Option<int> {
    match pos {
        InsertPosition::Front => Some(0),
        InsertPosition::Back => Some(s.len() as int),
        InsertPosition::Before(h) => if contains_handle(s, h) {
            Some(position_of_handle(s, h))
        } else {
            None
        },
        InsertPosition::After(h) => if contains_handle(s, h) {
            Some(position_of_handle(s, h) + 1)
        } else {
            None
        },
    }
}

/// Where the `j`-th of `n` new entries lands when inserting at `q`.
pub open spec fn slot(front: bool, q: int, n: int, j: int) -> int {
    if front {
        n - 1 - j
    } else {
        q + j
    }
}

/// `new` is `old` with the entries made from `inits`, under handles from `h0` on,
/// inserted at `q` in order (or each in turn at the front, when `front`).
pub open spec fn inserted(
    old: Seq<PlaylistEntryModel>,
    new: Seq<PlaylistEntryModel>,
    inits: Seq<PlaylistEntryInit>,
    front: bool,
    q: int,
    h0: int,
) -> bool {
    &&& new.len() == old.len() + inits.len()
    &&& forall|i: int| 0 <= i < q ==> new[i] == old[i]
    &&& forall|i: int| q <= i < old.len() ==> new[i + inits.len()] == old[i]
    &&& forall|j: int|
        0 <= j < inits.len() ==> fresh_entry(
            #[trigger] new[slot(front, q, inits.len() as int, j)],
            inits[j],
            (h0 + j) as u64,
        )
}

/// The active handle after removing the entry with handle `h`: first the playlist
/// moves on when that entry is active, then an active handle of the removed entry is cleared.
pub open spec fn index_after_remove(
    s: Seq<PlaylistEntryModel>,
    index: Option<u64>,
    repeat: RepeatMode,
    h: u64,
) -> Option<u64> {
    let moved = if index == Some(h) {
        next_index(s, index, repeat)
    } else {
        index
    };
    if moved == Some(h) {
        None
    } else {
        moved
    }
}

/// `e` is `old` after its media information was read with result `result`.
pub open spec fn updated_entry(
    old: PlaylistEntryModel,
    e: PlaylistEntryModel,
    result: Result<MediaMetadata, DiscoveryError>,
) -> bool {
    &&& e.handle == old.handle
    &&& e.short_uri == old.short_uri
    &&& !e.updating
    &&& match result {
        Ok(m) => {
            &&& e.uri == m.uri
            &&& e.duration_ms == m.duration_ms
            &&& e.start_time == m.start_time
            &&& e.info_text == m.info_text
            &&& e.error.is_none()
        },
        Err(err) => {
            &&& e.uri == old.uri
            &&& e.duration_ms.is_none()
            &&& e.start_time == old.start_time
            &&& e.info_text == old.info_text
            &&& e.error == Some(EntryError::Discovery(err))
        },
    }
}

/// `a` orders before `b` byte by byte, looking from position `i` on (a proper
/// prefix orders first).
pub open spec fn bytes_less_from(a: Seq<u8>, b: Seq<u8>, i: int) -> bool
    decreases a.len() - i,
{
    if i < 0 || i >= a.len() {
        0 <= i < b.len()
    } else if i >= b.len() {
        false
    } else if a[i] != b[i] {
        a[i] < b[i]
    } else {
        bytes_less_from(a, b, i + 1)
    }
}

/// Strings order by their UTF-8 bytes, as `String`'s own order does.
pub open spec fn text_less(a: Seq<char>, b: Seq<char>) -> bool {
    bytes_less_from(encode_utf8(a), encode_utf8(b), 0)
}

/// Entry `a` sorts strictly before `b` by `order`; an unknown start time sorts first.
pub open spec fn key_less(order: SortOrder, a: PlaylistEntryModel, b: PlaylistEntryModel) -> bool {
    match order {
        SortOrder::StartTime => match (a.start_time, b.start_time) {
            (None, Some(_)) => true,
            (Some(x), Some(y)) => x < y,
            _ => false,
        },
        SortOrder::ShortUri => text_less(a.short_uri@, b.short_uri@),
    }
}

pub open spec fn sorted_by(order: SortOrder, s: Seq<PlaylistEntryModel>) -> bool {
    forall|i: int, j: int| 0 <= i < j < s.len() ==> !key_less(order, s[j], s[i])
}

/// Some position of `perm` holds `i`.
pub open spec fn in_perm(perm: Seq<int>, i: int) -> bool {
    exists|k: int| 0 <= k < perm.len() && perm[k] == i
}

/// `new` holds the entries of `old` in the order `perm` gives, with entries of
/// equal key in their old relative order.
pub open spec fn stable_permutation(
    order: SortOrder,
    old: Seq<PlaylistEntryModel>,
    new: Seq<PlaylistEntryModel>,
    perm: Seq<int>,
) -> bool {
    &&& perm.len() == new.len()
    &&& new.len() == old.len()
    &&& forall|k: int| 0 <= k < perm.len() ==> 0 <= #[trigger] perm[k] < old.len() && new[k] == old[perm[k]]
    &&& forall|k: int, l: int| 0 <= k < l < perm.len() ==> perm[k] != perm[l]
    &&& forall|i: int| 0 <= i < old.len() ==> #[trigger] in_perm(perm, i)
    &&& forall|k: int, l: int|
        0 <= k < l < perm.len() && !key_less(order, new[k], new[l]) && !key_less(order, new[l], new[k])
            ==> perm[k] < perm[l]
}

proof fn lemma_bytes_less_asymmetric(a: Seq<u8>, b: Seq<u8>, i: int)
    requires
        0 <= i,
    ensures
        bytes_less_from(a, b, i) ==> !bytes_less_from(b, a, i),
    decreases a.len() - i,
{
    if i < a.len() && i < b.len() && a[i] == b[i] {
        lemma_bytes_less_asymmetric(a, b, i + 1);
    }
}

proof fn lemma_bytes_less_split(a: Seq<u8>, b: Seq<u8>, c: Seq<u8>, i: int)
    requires
        0 <= i,
    ensures
        bytes_less_from(a, c, i) ==> bytes_less_from(a, b, i) || bytes_less_from(b, c, i),
    decreases a.len() - i,
{
    if i < a.len() && i < b.len() && i < c.len() && a[i] == b[i] && b[i] == c[i] {
        lemma_bytes_less_split(a, b, c, i + 1);
    }
}

/// `key_less` is a strict weak order: asymmetric, and "not before" is transitive.
proof fn lemma_key_order(order: SortOrder, a: PlaylistEntryModel, b: PlaylistEntryModel, c: PlaylistEntryModel)
    ensures
        key_less(order, a, b) ==> !key_less(order, b, a),
        !key_less(order, a, b) && !key_less(order, b, c) ==> !key_less(order, a, c),
{
    if order == SortOrder::ShortUri {
        lemma_bytes_less_asymmetric(encode_utf8(a.short_uri@), encode_utf8(b.short_uri@), 0);
        lemma_bytes_less_split(encode_utf8(a.short_uri@), encode_utf8(b.short_uri@), encode_utf8(c.short_uri@), 0);
    }
}

fn bytes_lt(a: &[u8], b: &[u8]) -> (r: bool)
    ensures
        r == bytes_less_from(a@, b@, 0),
{
    let mut i: usize = 0;
    while i < a.len() && i < b.len() && a[i] == b[i]
        invariant
            i <= a@.len(),
            i <= b@.len(),
            bytes_less_from(a@, b@, 0) == bytes_less_from(a@, b@, i as int),
        decreases a@.len() - i,
    {
        i = i + 1;
    }
    if i >= a.len() {
        i < b.len()
    } else if i >= b.len() {
        false
    } else {
        a[i] < b[i]
    }
}

fn key_lt(order: SortOrder, a: &PlaylistEntryModel, b: &PlaylistEntryModel) -> (r: bool)
    ensures
        r == key_less(order, *a, *b),
{
    match order {
        SortOrder::StartTime => match (a.start_time, b.start_time) {
            (None, Some(_)) => true,
            (Some(x), Some(y)) => x < y,
            _ => false,
        },
        SortOrder::ShortUri => bytes_lt(a.short_uri.as_str().as_bytes(), b.short_uri.as_str().as_bytes()),
    }
}

/// With unique handles, the entry at `i` is the one `position_of_handle` finds.
pub proof fn lemma_position_unique(s: Seq<PlaylistEntryModel>, h: u64, i: int)
    requires
        handles_unique(s),
        has_handle(s, h, i),
    ensures
        position_of_handle(s, h) == i,
        contains_handle(s, h),
{
    let p = position_of_handle(s, h);
    assert(has_handle(s, h, p));
}

impl PlaylistComponentModel {
    /// The invariant: handles are unique and below `next_handle`, the active handle
    /// belongs to an entry, and the placeholder shows exactly when the list is empty.
    pub open spec fn wf(&self) -> bool {
        &&& handles_unique(self.uris@)
        &&& forall|i: int| 0 <= i < self.uris@.len() ==> self.uris@[i].handle < self.next_handle
        &&& (self.index matches Some(h) ==> contains_handle(self.uris@, h))
        &&& self.show_placeholder == (self.uris@.len() == 0)
    }

    /// An empty, stopped playlist that does not repeat.
    pub fn new() -> (r: PlaylistComponentModel)
        ensures
            r.wf(),
            r.uris@.len() == 0,
            r.index.is_none(),
            r.state == PlaylistState::Stopped,
            r.repeat == RepeatMode::Off,
            r.next_handle == 0,
    {
        PlaylistComponentModel {
            uris: Vec::new(),
            index: None,
            state: PlaylistState::Stopped,
            show_placeholder: true,
            repeat: RepeatMode::Off,
            next_handle: 0,
        }
    }

    /// The handle of the active entry.
    pub fn dynamic_index(&self) -> (r: Option<u64>)
        ensures
            r == self.index,
    {
        self.index
    }

    /// The request to show the placeholder of an empty playlist, or to hide it.
    pub fn placeholder_command(&self) -> (r: PlaylistCommandOutput)
        requires
            self.wf(),
        ensures
            r == PlaylistCommandOutput::ShowPlaceholder(self.uris@.len() == 0),
    {
        PlaylistCommandOutput::ShowPlaceholder(self.show_placeholder)
    }

    /// Whether the entry with handle `h` is the active one.
    pub fn is_active(&self, h: u64) -> (r: bool)
        ensures
            r == (self.index == Some(h)),
    {
        match self.index {
            Some(a) => a == h,
            None => false,
        }
    }

    /// The current position of the entry with handle `h`.
    pub fn position_of(&self, h: u64) -> (r: Option<usize>)
        requires
            self.wf(),
        ensures
            r is None <==> !contains_handle(self.uris@, h),
            r matches Some(p) ==> p == position_of_handle(self.uris@, h) && has_handle(self.uris@, h, p as int),
    {
        let mut i: usize = 0;
        while i < self.uris.len()
            invariant
                self.wf(),
                i <= self.uris@.len(),
                forall|j: int| 0 <= j < i ==> self.uris@[j].handle != h,
            decreases self.uris@.len() - i,
        {
            if self.uris[i].handle == h {
                proof {
                    lemma_position_unique(self.uris@, h, i as int);
                }
                return Some(i);
            }
            i = i + 1;
        }
        None
    }

    /// Makes the entry with handle `h` the active one and returns its URI for playback;
    /// an unknown handle changes nothing.
    pub fn switch(&mut self, h: u64) -> (r: Option<PlaylistComponentOutput>)
        requires
            old(self).wf(),
        ensures
            final(self).wf(),
            final(self).uris@ == old(self).uris@,
            contains_handle(old(self).uris@, h) ==> final(self).index == Some(h) && switches_to(
                old(self).uris@,
                h,
                r,
            ),
            !contains_handle(old(self).uris@, h) ==> final(self).index == old(self).index && r is None,
            final(self).state == old(self).state,
            final(self).repeat == old(self).repeat,
            final(self).next_handle == old(self).next_handle,
    {
        match self.position_of(h) {
            Some(p) => {
                self.index = Some(h);
                Some(PlaylistComponentOutput::SwitchUri(self.uris[p].uri.clone()))
            },
            None => None,
        }
    }

    /// Activates the entry at position `i`, if there is one.
    pub fn activate(&mut self, i: usize) -> (r: Option<PlaylistComponentOutput>)
        requires
            old(self).wf(),
        ensures
            final(self).wf(),
            final(self).uris@ == old(self).uris@,
            i < old(self).uris@.len() ==> final(self).index == Some(old(self).uris@[i as int].handle)
                && switches_to(old(self).uris@, old(self).uris@[i as int].handle, r),
            i >= old(self).uris@.len() ==> final(self).index == old(self).index && r is None,
            final(self).state == old(self).state,
            final(self).repeat == old(self).repeat,
            final(self).next_handle == old(self).next_handle,
    {
        if i < self.uris.len() {
            let h = self.uris[i].handle;
            proof {
                lemma_position_unique(self.uris@, h, i as int);
            }
            self.switch(h)
        } else {
            None
        }
    }

    /// Starts playback at the first entry, if there is one.
    pub fn start(&mut self) -> (r: Option<PlaylistComponentOutput>)
        requires
            old(self).wf(),
        ensures
            final(self).wf(),
            final(self).uris@ == old(self).uris@,
            old(self).uris@.len() > 0 ==> final(self).index == Some(old(self).uris@[0].handle)
                && switches_to(old(self).uris@, old(self).uris@[0].handle, r),
            old(self).uris@.len() == 0 ==> final(self).index == old(self).index && r is None,
            final(self).state == old(self).state,
            final(self).repeat == old(self).repeat,
            final(self).next_handle == old(self).next_handle,
    {
        self.activate(0)
    }

    /// Leaves no entry active and reports the end of the playlist.
    pub fn end_of_playlist(&mut self) -> (r: PlaylistComponentOutput)
        requires
            old(self).wf(),
        ensures
            final(self).wf(),
            final(self).uris@ == old(self).uris@,
            final(self).index.is_none(),
            r == PlaylistComponentOutput::EndOfPlaylist,
            final(self).state == old(self).state,
            final(self).repeat == old(self).repeat,
            final(self).next_handle == old(self).next_handle,
    {
        self.index = None;
        PlaylistComponentOutput::EndOfPlaylist
    }

    /// Goes back one entry; on the first entry, restarts it. Nothing happens
    /// while no entry is active.
    pub fn previous(&mut self) -> (r: Option<PlaylistComponentOutput>)
        requires
            old(self).wf(),
        ensures
            final(self).wf(),
            final(self).uris@ == old(self).uris@,
            final(self).index == previous_index(old(self).uris@, old(self).index),
            navigation_output(
                old(self).uris@,
                old(self).index,
                previous_index(old(self).uris@, old(self).index),
                r,
            ),
            final(self).state == old(self).state,
            final(self).repeat == old(self).repeat,
            final(self).next_handle == old(self).next_handle,
    {
        match self.index {
            None => None,
            Some(h) => {
                match self.position_of(h) {
                    Some(p) => {
                        if p >= 1 {
                            let t = self.uris[p - 1].handle;
                            proof {
                                lemma_position_unique(self.uris@, t, p - 1);
                            }
                            self.switch(t)
                        } else {
                            self.switch(h)
                        }
                    },
                    None => None,
                }
            },
        }
    }

    /// Goes on to the next entry; after the last one, wraps to the first when
    /// repeating all, else ends the playlist. Nothing happens while no entry is active.
    pub fn next(&mut self) -> (r: Option<PlaylistComponentOutput>)
        requires
            old(self).wf(),
        ensures
            final(self).wf(),
            final(self).uris@ == old(self).uris@,
            final(self).index == next_index(old(self).uris@, old(self).index, old(self).repeat),
            navigation_output(
                old(self).uris@,
                old(self).index,
                next_index(old(self).uris@, old(self).index, old(self).repeat),
                r,
            ),
            final(self).state == old(self).state,
            final(self).repeat == old(self).repeat,
            final(self).next_handle == old(self).next_handle,
    {
        match self.index {
            None => None,
            Some(h) => {
                match self.position_of(h) {
                    Some(p) => {
                        if p < self.uris.len() - 1 {
                            let t = self.uris[p + 1].handle;
                            proof {
                                lemma_position_unique(self.uris@, t, p + 1);
                            }
                            self.switch(t)
                        } else if self.repeat == RepeatMode::All && self.uris.len() > 0 {
                            let t = self.uris[0].handle;
                            proof {
                                lemma_position_unique(self.uris@, t, 0);
                            }
                            self.switch(t)
                        } else {
                            Some(self.end_of_playlist())
                        }
                    },
                    None => None,
                }
            },
        }
    }

    fn new_entry(init: PlaylistEntryInit, handle: u64) -> (e: PlaylistEntryModel)
        ensures
            fresh_entry(e, init, handle),
    {
        let short_uri = match init.short_uri {
            Some(n) => n,
            None => init.uri.clone(),
        };
        let error = match init.error {
            Some(m) => Some(EntryError::InvalidPath(m)),
            None => None,
        };
        PlaylistEntryModel {
            handle,
            uri: init.uri,
            short_uri,
            error,
            updating: true,
            duration_ms: None,
            info_text: String::new(),
            start_time: None,
        }
    }

    /// Adds an entry for each of `inits` at `position` and returns their handles with
    /// the notification of the addition; entries are never dropped, those whose URI
    /// failed carry the error. `None`, with nothing changed, where `position` names an
    /// unknown handle.
    pub fn add(&mut self, inits: Vec<PlaylistEntryInit>, position: InsertPosition) -> (r: Option<
        (Vec<u64>, PlaylistComponentOutput),
    >)
        requires
            old(self).wf(),
            old(self).next_handle + inits@.len() <= u64::MAX,
            old(self).uris@.len() + inits@.len() <= usize::MAX,
        ensures
            final(self).wf(),
            final(self).index == old(self).index,
            final(self).state == old(self).state,
            final(self).repeat == old(self).repeat,
            insert_point(old(self).uris@, position) is None ==> r is None && final(self).uris@
                == old(self).uris@ && final(self).next_handle == old(self).next_handle,
            insert_point(old(self).uris@, position) matches Some(q) ==> {
                &&& r matches Some((hs, o)) && hs@ == Seq::new(
                    inits@.len(),
                    |j: int| (old(self).next_handle + j) as u64,
                ) && o == PlaylistComponentOutput::PlaylistChanged(PlaylistChange::Added)
                &&& final(self).next_handle == old(self).next_handle + inits@.len()
                &&& inserted(
                    old(self).uris@,
                    final(self).uris@,
                    inits@,
                    position == InsertPosition::Front,
                    q,
                    old(self).next_handle as int,
                )
            },
    {
        let front = position == InsertPosition::Front;
        let len = self.uris.len();
        let q: usize = match position {
            InsertPosition::Front => 0,
            InsertPosition::Back => self.uris.len(),
            InsertPosition::Before(h) => match self.position_of(h) {
                Some(p) => p,
                None => {
                    return None;
                },
            },
            InsertPosition::After(h) => match self.position_of(h) {
                Some(p) => p + 1,
                None => {
                    return None;
                },
            },
        };
        let ghost old_uris = self.uris@;
        let ghost all = inits@;
        let ghost h0 = self.next_handle as int;
        let n = inits.len();
        let mut rest = inits;
        let mut handles: Vec<u64> = Vec::new();
        let mut k: usize = 0;
        while k < n
            invariant
                0 <= q <= old_uris.len(),
                n == all.len(),
                k <= n,
                rest@ == all.subrange(k as int, n as int),
                old_uris.len() + n <= usize::MAX,
                front ==> q == 0,
                self.next_handle == h0 + k,
                h0 + n <= u64::MAX,
                self.index == old(self).index,
                self.state == old(self).state,
                self.repeat == old(self).repeat,
                self.show_placeholder == old(self).show_placeholder,
                handles_unique(self.uris@),
                forall|i: int| 0 <= i < self.uris@.len() ==> self.uris@[i].handle < self.next_handle,
                self.index matches Some(h) ==> contains_handle(self.uris@, h),
                handles@ == Seq::new(k as nat, |j: int| (h0 + j) as u64),
                inserted(old_uris, self.uris@, all.subrange(0, k as int), front, q as int, h0),
            decreases n - k,
        {
            let init = rest.remove(0);
            assert(init == all[k as int]);
            let h = self.next_handle;
            let e = Self::new_entry(init, h);
            let at: usize = if front { 0 } else { q + k };
            let ghost before = self.uris@;
            self.uris.insert(at, e);
            self.next_handle = h + 1;
            handles.push(h);
            proof {
                let sub = all.subrange(0, k as int);
                let sub1 = all.subrange(0, k + 1);
                assert forall|i: int, j: int|
                    0 <= i < self.uris@.len() && 0 <= j < self.uris@.len() && i != j implies
                    self.uris@[i].handle != self.uris@[j].handle by {
                    if i != at && j != at {
                        let bi = if i < at { i } else { i - 1 };
                        let bj = if j < at { j } else { j - 1 };
                        assert(self.uris@[i] == before[bi]);
                        assert(self.uris@[j] == before[bj]);
                    } else if i == at {
                        let bj = if j < at { j } else { j - 1 };
                        assert(self.uris@[j] == before[bj]);
                    } else {
                        let bi = if i < at { i } else { i - 1 };
                        assert(self.uris@[i] == before[bi]);
                    }
                }
                assert forall|i: int| 0 <= i < self.uris@.len() implies self.uris@[i].handle
                    < self.next_handle by {
                    if i != at {
                        let bi = if i < at { i } else { i - 1 };
                        assert(self.uris@[i] == before[bi]);
                    }
                }
                if let Some(a) = self.index {
                    let w = choose|w: int| has_handle(before, a, w);
                    let nw = if w < at { w } else { w + 1 };
                    assert(has_handle(self.uris@, a, nw));
                }
                assert(handles@ =~= Seq::new((k + 1) as nat, |j: int| (h0 + j) as u64));
                assert(self.uris@.len() == old_uris.len() + sub1.len());
                assert forall|i: int| 0 <= i < q implies self.uris@[i] == old_uris[i] by {
                    if !front {
                        assert(i < at);
                        assert(self.uris@[i] == before[i]);
                        assert(before[i] == old_uris[i]);
                    }
                }
                assert forall|i: int| q <= i < old_uris.len() implies self.uris@[i + sub1.len()]
                    == old_uris[i] by {
                    assert(self.uris@[i + sub1.len()] == before[i + sub.len()]);
                }
                assert forall|j: int| 0 <= j < sub1.len() implies fresh_entry(
                    #[trigger] self.uris@[slot(front, q as int, sub1.len() as int, j)],
                    sub1[j],
                    (h0 + j) as u64,
                ) by {
                    if j < k {
                        assert(sub1[j] == sub[j]);
                        if front {
                            assert(self.uris@[slot(front, q as int, sub1.len() as int, j)]
                                == before[slot(front, q as int, sub.len() as int, j)]);
                        } else {
                            assert(self.uris@[slot(front, q as int, sub1.len() as int, j)]
                                == before[slot(front, q as int, sub.len() as int, j)]);
                        }
                    } else {
                        assert(sub1[j] == init);
                    }
                }
            }
            k = k + 1;
        }
        self.show_placeholder = self.uris.len() == 0;
        proof {
            assert(all.subrange(0, n as int) =~= all);
        }
        Some((handles, PlaylistComponentOutput::PlaylistChanged(PlaylistChange::Added)))
    }

    /// Removes the entry with handle `h`. When it is the active one, the playlist
    /// first moves on as `next` does, so playback goes on. An unknown handle changes nothing.
    pub fn remove(&mut self, h: u64) -> (r: Vec<PlaylistComponentOutput>)
        requires
            old(self).wf(),
        ensures
            final(self).wf(),
            final(self).state == old(self).state,
            final(self).repeat == old(self).repeat,
            final(self).next_handle == old(self).next_handle,
            !contains_handle(old(self).uris@, h) ==> final(self).uris@ == old(self).uris@
                && final(self).index == old(self).index && r@.len() == 0,
            contains_handle(old(self).uris@, h) ==> {
                &&& final(self).uris@ == old(self).uris@.remove(position_of_handle(old(self).uris@, h))
                &&& final(self).index == index_after_remove(
                    old(self).uris@,
                    old(self).index,
                    old(self).repeat,
                    h,
                )
                &&& old(self).index == Some(h) ==> {
                    &&& r@.len() == 2
                    &&& navigation_output(
                        old(self).uris@,
                        old(self).index,
                        next_index(old(self).uris@, old(self).index, old(self).repeat),
                        Some(r@[0]),
                    )
                    &&& r@[1] == PlaylistComponentOutput::PlaylistChanged(PlaylistChange::Removed)
                }
                &&& old(self).index != Some(h) ==> r@ == seq![
                    PlaylistComponentOutput::PlaylistChanged(PlaylistChange::Removed),
                ]
            },
    {
        let mut out: Vec<PlaylistComponentOutput> = Vec::new();
        let p = match self.position_of(h) {
            Some(p) => p,
            None => {
                return out;
            },
        };
        if self.is_active(h) {
            if let Some(o) = self.next() {
                out.push(o);
            }
        }
        let ghost mid = self.uris@;
        self.uris.remove(p);
        if self.is_active(h) {
            self.index = None;
        }
        self.show_placeholder = self.uris.len() == 0;
        out.push(PlaylistComponentOutput::PlaylistChanged(PlaylistChange::Removed));
        proof {
            assert forall|i: int, j: int|
                0 <= i < self.uris@.len() && 0 <= j < self.uris@.len() && i != j implies
                self.uris@[i].handle != self.uris@[j].handle by {
                let bi = if i < p { i } else { i + 1 };
                let bj = if j < p { j } else { j + 1 };
                assert(self.uris@[i] == mid[bi]);
                assert(self.uris@[j] == mid[bj]);
            }
            assert forall|i: int| 0 <= i < self.uris@.len() implies self.uris@[i].handle
                < self.next_handle by {
                let bi = if i < p { i } else { i + 1 };
                assert(self.uris@[i] == mid[bi]);
            }
            if let Some(a) = self.index {
                let w = choose|w: int| has_handle(mid, a, w);
                assert(w != p);
                let nw = if w < p { w } else { w - 1 };
                assert(has_handle(self.uris@, a, nw));
            }
        }
        out
    }

    /// Moves the entry with handle `from` to position `to`; the other entries keep
    /// their order. Nothing changes where the handle is unknown or `to` is past the end.
    pub fn move_entry(&mut self, from: u64, to: usize) -> (r: Option<PlaylistComponentOutput>)
        requires
            old(self).wf(),
        ensures
            final(self).wf(),
            final(self).index == old(self).index,
            final(self).state == old(self).state,
            final(self).repeat == old(self).repeat,
            final(self).next_handle == old(self).next_handle,
            contains_handle(old(self).uris@, from) && to < old(self).uris@.len() ==> {
                let p = position_of_handle(old(self).uris@, from);
                &&& final(self).uris@ == old(self).uris@.remove(p).insert(to as int, old(self).uris@[p])
                &&& r == Some(PlaylistComponentOutput::PlaylistChanged(PlaylistChange::Reordered))
            },
            !(contains_handle(old(self).uris@, from) && to < old(self).uris@.len()) ==> final(self).uris@ == old(self).uris@ && r is None,
    {
        if to >= self.uris.len() {
            return None;
        }
        let p = match self.position_of(from) {
            Some(p) => p,
            None => {
                return None;
            },
        };
        let ghost before = self.uris@;
        let e = self.uris.remove(p);
        let ghost mid = self.uris@;
        self.uris.insert(to, e);
        proof {
            assert forall|i: int| 0 <= i < self.uris@.len() implies exists|b: int|
                0 <= b < before.len() && #[trigger] self.uris@[i] == before[b] && (i == to <==> b
                    == p) by {
                if i == to {
                    assert(self.uris@[i] == before[p as int]);
                } else {
                    let m = if i < to { i } else { i - 1 };
                    let b = if m < p { m } else { m + 1 };
                    assert(self.uris@[i] == mid[m]);
                    assert(mid[m] == before[b]);
                }
            }
            assert forall|i: int, j: int|
                0 <= i < self.uris@.len() && 0 <= j < self.uris@.len() && i != j implies
                self.uris@[i].handle != self.uris@[j].handle by {
                let mi = if i == to { 0 } else if i < to { i } else { i - 1 };
                let mj = if j == to { 0 } else if j < to { j } else { j - 1 };
                let bi = if i == to { p as int } else if mi < p { mi } else { mi + 1 };
                let bj = if j == to { p as int } else if mj < p { mj } else { mj + 1 };
                if i != to {
                    assert(self.uris@[i] == mid[mi]);
                }
                if j != to {
                    assert(self.uris@[j] == mid[mj]);
                }
                assert(self.uris@[i] == before[bi]);
                assert(self.uris@[j] == before[bj]);
            }
            assert forall|i: int| 0 <= i < self.uris@.len() implies self.uris@[i].handle
                < self.next_handle by {
                let b = choose|b: int|
                    0 <= b < before.len() && #[trigger] self.uris@[i] == before[b] && (i == to
                        <==> b == p);
            }
            if let Some(a) = self.index {
                let w = choose|w: int| has_handle(before, a, w);
                let nw = if w == p { to as int } else {
                    let m = if w < p { w } else { w - 1 };
                    if m < to { m } else { m + 1 }
                };
                if w != p {
                    let m = if w < p { w } else { w - 1 };
                    assert(mid[m] == before[w]);
                }
                assert(has_handle(self.uris@, a, nw));
            }
        }
        Some(PlaylistComponentOutput::PlaylistChanged(PlaylistChange::Reordered))
    }

    /// Marks the entry with handle `h` as being read and returns the URI to read;
    /// `None` for an unknown handle.
    pub fn fetch_metadata(&mut self, h: u64) -> (r: Option<String>)
        requires
            old(self).wf(),
        ensures
            final(self).wf(),
            final(self).index == old(self).index,
            final(self).state == old(self).state,
            final(self).repeat == old(self).repeat,
            final(self).next_handle == old(self).next_handle,
            final(self).uris@.len() == old(self).uris@.len(),
            !contains_handle(old(self).uris@, h) ==> final(self).uris@ == old(self).uris@ && r is None,
            contains_handle(old(self).uris@, h) ==> {
                let p = position_of_handle(old(self).uris@, h);
                &&& final(self).uris@ == old(self).uris@.update(
                    p,
                    PlaylistEntryModel { updating: true, ..old(self).uris@[p] },
                )
                &&& r matches Some(u) && u@ == old(self).uris@[p].uri@
            },
    {
        match self.position_of(h) {
            None => None,
            Some(p) => {
                let ghost before = self.uris@;
                self.uris[p].updating = true;
                proof {
                    assert(self.uris@ =~= before.update(p as int, PlaylistEntryModel { updating: true, ..before[p as int] }));
                    assert forall|i: int| 0 <= i < self.uris@.len() implies #[trigger] self.uris@[i].handle
                        == before[i].handle by {}
                    if let Some(a) = self.index {
                        let w = choose|w: int| has_handle(before, a, w);
                        assert(has_handle(self.uris@, a, w));
                    }
                }
                Some(self.uris[p].uri.clone())
            },
        }
    }

    /// Marks every entry as being read and returns each one's handle and URI, in
    /// playlist order.
    pub fn fetch_all_metadata(&mut self) -> (r: Vec<(u64, String)>)
        requires
            old(self).wf(),
        ensures
            final(self).wf(),
            final(self).index == old(self).index,
            final(self).state == old(self).state,
            final(self).repeat == old(self).repeat,
            final(self).next_handle == old(self).next_handle,
            final(self).uris@.len() == old(self).uris@.len(),
            r@.len() == old(self).uris@.len(),
            forall|i: int|
                0 <= i < old(self).uris@.len() ==> final(self).uris@[i] == (PlaylistEntryModel {
                    updating: true,
                    ..old(self).uris@[i]
                }) && (#[trigger] r@[i]).0 == old(self).uris@[i].handle && r@[i].1@ == old(self).uris@[i].uri@,
    {
        let ghost before = self.uris@;
        let mut out: Vec<(u64, String)> = Vec::new();
        let mut i: usize = 0;
        while i < self.uris.len()
            invariant
                self.uris@.len() == before.len(),
                i <= before.len(),
                out@.len() == i,
                forall|j: int| 0 <= j < i ==> self.uris@[j] == (PlaylistEntryModel { updating: true, ..before[j] }),
                forall|j: int| i <= j < before.len() ==> self.uris@[j] == before[j],
                forall|j: int|
                    0 <= j < i ==> (#[trigger] out@[j]).0 == before[j].handle && out@[j].1@ == before[j].uri@,
                self.index == old(self).index,
                self.state == old(self).state,
                self.repeat == old(self).repeat,
                self.next_handle == old(self).next_handle,
                self.show_placeholder == old(self).show_placeholder,
                before == old(self).uris@,
            decreases before.len() - i,
        {
            self.uris[i].updating = true;
            out.push((self.uris[i].handle, self.uris[i].uri.clone()));
            i = i + 1;
        }
        proof {
            assert forall|j: int| 0 <= j < self.uris@.len() implies #[trigger] self.uris@[j].handle
                == before[j].handle by {}
            if let Some(a) = self.index {
                let w = choose|w: int| has_handle(before, a, w);
                assert(has_handle(self.uris@, a, w));
            }
        }
        out
    }

    /// Stores the result of reading the media information of the entry with handle
    /// `h` and reports the update; a failure is kept on the entry. The result for an
    /// entry that was removed meanwhile is dropped.
    pub fn update_metadata(&mut self, h: u64, result: Result<MediaMetadata, DiscoveryError>) -> (r: Option<
        PlaylistComponentOutput,
    >)
        requires
            old(self).wf(),
        ensures
            final(self).wf(),
            final(self).index == old(self).index,
            final(self).state == old(self).state,
            final(self).repeat == old(self).repeat,
            final(self).next_handle == old(self).next_handle,
            final(self).uris@.len() == old(self).uris@.len(),
            !contains_handle(old(self).uris@, h) ==> final(self).uris@ == old(self).uris@ && r is None,
            contains_handle(old(self).uris@, h) ==> {
                let p = position_of_handle(old(self).uris@, h);
                &&& forall|i: int|
                    0 <= i < old(self).uris@.len() && i != p ==> final(self).uris@[i] == old(self).uris@[i]
                &&& updated_entry(old(self).uris@[p], final(self).uris@[p], result)
                &&& r == Some(PlaylistComponentOutput::PlaylistChanged(PlaylistChange::Updated))
            },
    {
        match self.position_of(h) {
            None => None,
            Some(p) => {
                let ghost before = self.uris@;
                let e = self.uris.remove(p);
                let updated = match result {
                    Ok(m) => PlaylistEntryModel {
                        handle: e.handle,
                        uri: m.uri,
                        short_uri: e.short_uri,
                        error: None,
                        updating: false,
                        duration_ms: m.duration_ms,
                        info_text: m.info_text,
                        start_time: m.start_time,
                    },
                    Err(err) => PlaylistEntryModel {
                        handle: e.handle,
                        uri: e.uri,
                        short_uri: e.short_uri,
                        error: Some(EntryError::Discovery(err)),
                        updating: false,
                        duration_ms: None,
                        info_text: e.info_text,
                        start_time: e.start_time,
                    },
                };
                self.uris.insert(p, updated);
                proof {
                    assert forall|i: int| 0 <= i < self.uris@.len() implies #[trigger] self.uris@[i].handle
                        == before[i].handle by {
                        if i != p {
                            assert(self.uris@[i] == before[i]);
                        }
                    }
                    assert forall|i: int| 0 <= i < before.len() && i != p implies self.uris@[i]
                        == before[i] by {}
                    if let Some(a) = self.index {
                        let w = choose|w: int| has_handle(before, a, w);
                        assert(has_handle(self.uris@, a, w));
                    }
                }
                Some(PlaylistComponentOutput::PlaylistChanged(PlaylistChange::Updated))
            },
        }
    }

    /// Asks the playlist to stop; it reports that it is stopping.
    pub fn stop(&mut self) -> (r: PlaylistComponentOutput)
        requires
            old(self).wf(),
        ensures
            final(self).wf(),
            final(self).state == PlaylistState::Stopping,
            final(self).uris@ == old(self).uris@,
            final(self).index == old(self).index,
            final(self).repeat == old(self).repeat,
            final(self).next_handle == old(self).next_handle,
            r == PlaylistComponentOutput::StateChanged(PlaylistState::Stopping),
    {
        self.state = PlaylistState::Stopping;
        PlaylistComponentOutput::StateChanged(PlaylistState::Stopping)
    }

    /// The player stopped: a stop that was asked for completes, leaving no entry
    /// active; otherwise nothing changes.
    pub fn player_stopped(&mut self) -> (r: Option<PlaylistComponentOutput>)
        requires
            old(self).wf(),
        ensures
            final(self).wf(),
            final(self).uris@ == old(self).uris@,
            final(self).repeat == old(self).repeat,
            final(self).next_handle == old(self).next_handle,
            old(self).state == PlaylistState::Stopping ==> {
                &&& final(self).state == PlaylistState::Stopped
                &&& final(self).index.is_none()
                &&& r == Some(PlaylistComponentOutput::StateChanged(PlaylistState::Stopped))
            },
            old(self).state != PlaylistState::Stopping ==> final(self).state == old(self).state
                && final(self).index == old(self).index && r is None,
    {
        match self.state {
            PlaylistState::Stopping => {
                self.index = None;
                self.state = PlaylistState::Stopped;
                Some(PlaylistComponentOutput::StateChanged(PlaylistState::Stopped))
            },
            _ => None,
        }
    }

    /// The player started playing.
    pub fn player_playing(&mut self)
        requires
            old(self).wf(),
        ensures
            final(self).wf(),
            final(self).state == PlaylistState::Playing,
            final(self).uris@ == old(self).uris@,
            final(self).index == old(self).index,
            final(self).repeat == old(self).repeat,
            final(self).next_handle == old(self).next_handle,
    {
        self.state = PlaylistState::Playing;
    }

    /// Switches between repeating all entries and not repeating.
    pub fn toggle_repeat(&mut self)
        requires
            old(self).wf(),
        ensures
            final(self).wf(),
            final(self).repeat == (match old(self).repeat {
                RepeatMode::Off => RepeatMode::All,
                RepeatMode::All => RepeatMode::Off,
            }),
            final(self).uris@ == old(self).uris@,
            final(self).index == old(self).index,
            final(self).state == old(self).state,
            final(self).next_handle == old(self).next_handle,
    {
        self.repeat = match self.repeat {
            RepeatMode::Off => RepeatMode::All,
            RepeatMode::All => RepeatMode::Off,
        };
    }
    /// Sorts the entries by `order`, ascending and stable, and reports the reordering.
    pub fn sort(&mut self, order: SortOrder) -> (r: PlaylistComponentOutput)
        requires
            old(self).wf(),
        ensures
            final(self).wf(),
            sorted_by(order, final(self).uris@),
            exists|perm: Seq<int>| stable_permutation(order, old(self).uris@, final(self).uris@, perm),
            final(self).index == old(self).index,
            final(self).state == old(self).state,
            final(self).repeat == old(self).repeat,
            final(self).next_handle == old(self).next_handle,
            r == PlaylistComponentOutput::PlaylistChanged(PlaylistChange::Reordered),
    {
        let mut src: Vec<PlaylistEntryModel> = Vec::new();
        std::mem::swap(&mut src, &mut self.uris);
        let ghost orig = src@;
        let n = src.len();
        let mut out: Vec<PlaylistEntryModel> = Vec::new();
        let ghost mut perm: Seq<int> = Seq::empty();
        let mut k: usize = 0;
        while k < n
            invariant
                n == orig.len(),
                k <= n,
                src@ == orig.subrange(k as int, n as int),
                out@.len() == k,
                perm.len() == k,
                forall|m: int| 0 <= m < k ==> 0 <= #[trigger] perm[m] < k && out@[m] == orig[perm[m]],
                forall|m: int, l: int| 0 <= m < l < k ==> perm[m] != perm[l],
                forall|i: int| 0 <= i < k ==> #[trigger] in_perm(perm, i),
                sorted_by(order, out@),
                forall|m: int, l: int|
                    0 <= m < l < k && !key_less(order, out@[m], out@[l]) && !key_less(order, out@[l], out@[m])
                        ==> perm[m] < perm[l],
            decreases n - k,
        {
            let e = src.remove(0);
            assert(e == orig[k as int]);
            let mut j: usize = out.len();
            while j > 0 && key_lt(order, &e, &out[j - 1])
                invariant
                    j <= out@.len(),
                    forall|m: int| j <= m < out@.len() ==> key_less(order, e, #[trigger] out@[m]),
                decreases j,
            {
                j = j - 1;
            }
            let ghost before = out@;
            let ghost old_perm = perm;
            out.insert(j, e);
            proof {
                perm = perm.insert(j as int, k as int);
                assert forall|m: int| 0 <= m < k + 1 implies 0 <= #[trigger] perm[m] < k + 1 && out@[m]
                    == orig[perm[m]] by {
                    if m < j {
                        assert(perm[m] == old_perm[m]);
                    } else if m > j {
                        assert(perm[m] == old_perm[m - 1]);
                        assert(out@[m] == before[m - 1]);
                    }
                }
                assert forall|m: int, l: int| 0 <= m < l < k + 1 implies perm[m] != perm[l] by {
                    if m != j && l != j {
                        let bm = if m < j { m } else { m - 1 };
                        let bl = if l < j { l } else { l - 1 };
                        assert(perm[m] == old_perm[bm]);
                        assert(perm[l] == old_perm[bl]);
                    } else if m == j {
                        assert(perm[l] == old_perm[l - 1]);
                    } else {
                        assert(perm[m] == old_perm[m]);
                    }
                }
                assert forall|i: int| 0 <= i < k + 1 implies #[trigger] in_perm(perm, i) by {
                    if i == k {
                        assert(perm[j as int] == i);
                    } else {
                        assert(in_perm(old_perm, i));
                        let w = choose|w: int| 0 <= w < old_perm.len() && old_perm[w] == i;
                        let nw = if w < j { w } else { w + 1 };
                        assert(perm[nw] == i);
                    }
                }
                assert forall|a: int, b: int| 0 <= a < b < out@.len() implies !key_less(order, out@[b], out@[a]) by {
                    if a != j && b != j {
                        let ba = if a < j { a } else { a - 1 };
                        let bb = if b < j { b } else { b - 1 };
                        assert(out@[a] == before[ba]);
                        assert(out@[b] == before[bb]);
                    } else if a == j {
                        assert(out@[b] == before[b - 1]);
                        lemma_key_order(order, e, before[b - 1], e);
                    } else {
                        assert(out@[a] == before[a]);
                        assert(j > 0);
                        assert(!key_less(order, e, before[j - 1]));
                        lemma_key_order(order, e, before[j - 1], before[a]);
                    }
                }
                assert forall|m: int, l: int|
                    0 <= m < l < k + 1 && !key_less(order, out@[m], out@[l]) && !key_less(order, out@[l], out@[m])
                    implies perm[m] < perm[l] by {
                    if m != j && l != j {
                        let bm = if m < j { m } else { m - 1 };
                        let bl = if l < j { l } else { l - 1 };
                        assert(perm[m] == old_perm[bm]);
                        assert(perm[l] == old_perm[bl]);
                        assert(out@[m] == before[bm]);
                        assert(out@[l] == before[bl]);
                    } else if m == j {
                        assert(out@[l] == before[l - 1]);
                    } else {
                        assert(perm[m] == old_perm[m]);
                    }
                }
            }
            k = k + 1;
        }
        self.uris = out;
        proof {
            assert(stable_permutation(order, orig, self.uris@, perm));
            assert forall|i: int, j: int|
                0 <= i < self.uris@.len() && 0 <= j < self.uris@.len() && i != j implies
                self.uris@[i].handle != self.uris@[j].handle by {
                assert(self.uris@[i] == orig[perm[i]]);
                assert(self.uris@[j] == orig[perm[j]]);
            }
            assert forall|i: int| 0 <= i < self.uris@.len() implies self.uris@[i].handle
                < self.next_handle by {
                assert(self.uris@[i] == orig[perm[i]]);
            }
            if let Some(a) = self.index {
                let w = choose|w: int| has_handle(orig, a, w);
                assert(in_perm(perm, w));
                let m = choose|m: int| 0 <= m < perm.len() && perm[m] == w;
                assert(has_handle(self.uris@, a, m));
            }
        }
        PlaylistComponentOutput::PlaylistChanged(PlaylistChange::Reordered)
    }
}

/// On the first entry, `previous` restarts that entry: it stays active, playback
/// switches to it again, and the active entry is never cleared.
pub proof fn lemma_previous_on_first_restarts(s: Seq<PlaylistEntryModel>, h: u64)
    requires
        handles_unique(s),
        has_handle(s, h, 0),
    ensures
        previous_index(s, Some(h)) == Some(h),
        forall|r: Option<PlaylistComponentOutput>|
            navigation_output(s, Some(h), previous_index(s, Some(h)), r) ==> switches_to(s, h, r),
{
    lemma_position_unique(s, h, 0);
}

/// On the last entry, `next` wraps to the first entry when repeating all, and
/// otherwise ends the playlist with no entry active.
pub proof fn lemma_next_on_last(s: Seq<PlaylistEntryModel>, h: u64)
    requires
        handles_unique(s),
        has_handle(s, h, s.len() - 1),
    ensures
        next_index(s, Some(h), RepeatMode::All) == Some(s[0].handle),
        next_index(s, Some(h), RepeatMode::Off).is_none(),
        forall|r: Option<PlaylistComponentOutput>|
            navigation_output(s, Some(h), next_index(s, Some(h), RepeatMode::Off), r) ==> r == Some(
                PlaylistComponentOutput::EndOfPlaylist,
            ),
{
    lemma_position_unique(s, h, s.len() - 1);
}

/// Adding one entry at the back and then removing it by its handle gives back the
/// same entries in the same order, with the same active entry.
pub proof fn lemma_add_back_then_remove(
    before: Seq<PlaylistEntryModel>,
    added: Seq<PlaylistEntryModel>,
    after: Seq<PlaylistEntryModel>,
    index: Option<u64>,
    repeat: RepeatMode,
    init: PlaylistEntryInit,
    h: u64,
)
    requires
        handles_unique(added),
        index matches Some(a) ==> contains_handle(before, a),
        inserted(before, added, seq![init], false, before.len() as int, h as int),
        after == added.remove(position_of_handle(added, h)),
    ensures
        after == before,
        index_after_remove(added, index, repeat, h) == index,
{
    assert(fresh_entry(added[slot(false, before.len() as int, 1, 0)], seq![init][0], (h as int + 0) as u64));
    assert(added[before.len() as int].handle == h);
    lemma_position_unique(added, h, before.len() as int);
    assert(after =~= before);
    if let Some(a) = index {
        let w = choose|w: int| has_handle(before, a, w);
        assert(added[w] == before[w]);
        assert(a != h);
    }
}

} // verus!
