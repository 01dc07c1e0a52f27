//! The client's store of the current session's messages.
//!
//! Messages are kept in display order, each with its parts in arrival order.
//! Ids are unique among messages and, within a message, among its parts.

use vstd::prelude::*;
use crate::models::{
    Message, Part, SessionMessage, part_copy, message_id_of, message_session_of, part_id_of, part_message_of,
    part_session_of, extract_message_id, extract_session_id_from_message, extract_part_id,
    extract_message_id_from_part, extract_session_id_from_part, string_eq,
};
use crate::text::{push_all, chars_of};

verus! {

/// A message with its parts and display bookkeeping.
#[derive(Debug, PartialEq)]
pub struct MessageContainer {
    /// User or assistant metadata.
    pub info: Message,
    /// Parts in arrival order; part ids are distinct.
    pub parts: Vec<Part>,
    /// Whether the message is still receiving updates.
    pub is_streaming: bool,
    /// Milliseconds since the Unix epoch of the last change.
    pub last_updated: u64,
    /// Whether the message has been printed above the inline viewport.
    pub printed_to_stdout: bool,
}

/// Mathematical view of a message container.
pub struct ContainerView {
    pub info: Message,
    pub parts: Seq<Part>,
    pub is_streaming: bool,
    pub last_updated: u64,
    pub printed_to_stdout: bool,
}

impl View for MessageContainer {
    type V = ContainerView;

    open spec fn view(&self) -> ContainerView {
        ContainerView {
            info: self.info,
            parts: self.parts@,
            is_streaming: self.is_streaming,
            last_updated: self.last_updated,
            printed_to_stdout: self.printed_to_stdout,
        }
    }
}

/// Messages of the current session, in display order.
#[derive(Debug, PartialEq)]
pub struct MessageState {
    messages: Vec<MessageContainer>,
    current_session_id: Option<String>,
}

/// View of an optional string.
pub open spec fn opt_str(o: Option<String>) -> Option<Seq<char>> {
    match o {
        Some(s) => Some(s@),
        None => None,
    }
}

/// A copy of a container: the same metadata and flags, and a copy of each
/// part in order.
pub open spec fn container_copy(a: ContainerView, b: ContainerView) -> bool {
    &&& a.info == b.info
    &&& a.is_streaming == b.is_streaming
    &&& a.last_updated == b.last_updated
    &&& a.printed_to_stdout == b.printed_to_stdout
    &&& a.parts.len() == b.parts.len()
    &&& forall|i: int| 0 <= i < a.parts.len() ==> part_copy(#[trigger] a.parts[i], b.parts[i])
}

/// Copies of each container, in order.
pub open spec fn containers_copy(a: Seq<ContainerView>, b: Seq<ContainerView>) -> bool {
    a.len() == b.len() && forall|i: int| 0 <= i < a.len() ==> container_copy(#[trigger] a[i], b[i])
}

impl Clone for MessageContainer {
    fn clone(&self) -> (r: Self)
        ensures
            container_copy(self@, r@),
    {
        let mut parts: Vec<Part> = Vec::new();
        let mut i: usize = 0;
        while i < self.parts.len()
            invariant
                i <= self.parts@.len(),
                parts@.len() == i,
                forall|k: int| 0 <= k < i ==> part_copy(#[trigger] self.parts@[k], parts@[k]),
            decreases self.parts.len() - i,
        {
            parts.push(self.parts[i].clone());
            i = i + 1;
        }
        MessageContainer {
            info: self.info.clone(),
            parts,
            is_streaming: self.is_streaming,
            last_updated: self.last_updated,
            printed_to_stdout: self.printed_to_stdout,
        }
    }
}

/// Views of a sequence of containers.
pub open spec fn views(s: Seq<MessageContainer>) -> Seq<ContainerView> {
    s.map_values(|c: MessageContainer| c@)
}

/// Part ids are distinct.
pub open spec fn parts_unique(parts: Seq<Part>) -> bool {
    forall|i: int, j: int|
        0 <= i < j < parts.len() ==> part_id_of(#[trigger] parts[i]) != part_id_of(
            #[trigger] parts[j],
        )
}

/// Message ids are distinct and each message's part ids are distinct.
pub open spec fn containers_wf(s: Seq<ContainerView>) -> bool {
    &&& forall|i: int, j: int|
        0 <= i < j < s.len() ==> message_id_of(#[trigger] s[i].info) != message_id_of(
            #[trigger] s[j].info,
        )
    &&& forall|i: int| 0 <= i < s.len() ==> parts_unique(#[trigger] s[i].parts)
}

/// Whether a message with id `id` is stored.
pub open spec fn has_msg(s: Seq<ContainerView>, id: Seq<char>) -> bool {
    exists|i: int| 0 <= i < s.len() && message_id_of(s[i].info) == id
}

/// Position of the message with id `id`, or -1.
pub open spec fn msg_index(s: Seq<ContainerView>, id: Seq<char>) -> int {
    if has_msg(s, id) {
        choose|i: int| 0 <= i < s.len() && message_id_of(s[i].info) == id
    } else {
        -1
    }
}

/// Whether a part with id `id` is present.
pub open spec fn has_part(parts: Seq<Part>, id: Seq<char>) -> bool {
    exists|i: int| 0 <= i < parts.len() && part_id_of(parts[i]) == id
}

/// Position of the part with id `id`, or -1.
pub open spec fn part_index(parts: Seq<Part>, id: Seq<char>) -> int {
    if has_part(parts, id) {
        choose|i: int| 0 <= i < parts.len() && part_id_of(parts[i]) == id
    } else {
        -1
    }
}

/// Replaces the part with the same id, or appends a new one.
pub open spec fn upsert_part(parts: Seq<Part>, p: Part) -> Seq<Part> {
    let i = part_index(parts, part_id_of(p));
    if i >= 0 {
        parts.update(i, p)
    } else {
        parts.push(p)
    }
}

/// Parts of a listing with repeated ids merged: the first position, the last value.
pub open spec fn merged_parts(list: Seq<Part>) -> Seq<Part>
    decreases list.len(),
{
    if list.len() == 0 {
        seq![]
    } else {
        upsert_part(merged_parts(list.drop_last()), list.last())
    }
}

/// Replaces the message with the same id, or appends a new one.
pub open spec fn upsert_msg(s: Seq<ContainerView>, c: ContainerView) -> Seq<ContainerView> {
    let i = msg_index(s, message_id_of(c.info));
    if i >= 0 {
        s.update(i, c)
    } else {
        s.push(c)
    }
}

/// The container a listed message loads into.
pub open spec fn loaded_container(m: SessionMessage, now: u64) -> ContainerView {
    ContainerView {
        info: m.info,
        parts: merged_parts(m.parts@),
        is_streaming: false,
        last_updated: now,
        printed_to_stdout: false,
    }
}

/// Containers loaded from a message listing, repeated ids merged.
pub open spec fn loaded(list: Seq<SessionMessage>, now: u64) -> Seq<ContainerView>
    decreases list.len(),
{
    if list.len() == 0 {
        seq![]
    } else {
        upsert_msg(loaded(list.drop_last(), now), loaded_container(list.last(), now))
    }
}

/// Whether a message of session `sid` belongs to the current session.
pub open spec fn in_session(current: Option<Seq<char>>, sid: Seq<char>) -> bool {
    match current {
        Some(c) => c == sid,
        None => true,
    }
}

/// Number of containers not yet printed to stdout.
pub open spec fn unprinted_count(s: Seq<ContainerView>) -> nat
    decreases s.len(),
{
    if s.len() == 0 {
        0
    } else {
        unprinted_count(s.drop_last()) + if s.last().printed_to_stdout {
            0nat
        } else {
            1nat
        }
    }
}

/// The containers after the first `count` unprinted ones are marked printed.
pub open spec fn mark_printed(s: Seq<ContainerView>, count: nat) -> Seq<ContainerView> {
    Seq::new(
        s.len(),
        |i: int|
            if !s[i].printed_to_stdout && unprinted_count(s.take(i)) < count {
                ContainerView { printed_to_stdout: true, ..s[i] }
            } else {
                s[i]
            },
    )
}

/// Texts of the text parts joined by single spaces, as printed to stdout.
/// A space goes between pieces only once something has been collected.
pub open spec fn joined_text(parts: Seq<Part>) -> Seq<char>
    decreases parts.len(),
{
    if parts.len() == 0 {
        seq![]
    } else {
        let acc = joined_text(parts.drop_last());
        match parts.last() {
            Part::Text(t) => if acc.len() > 0 {
                acc.push(' ') + t.text@
            } else {
                acc + t.text@
            },
            _ => acc,
        }
    }
}

/// Texts of the unprinted messages that have any text.
pub open spec fn stdout_texts(s: Seq<ContainerView>) -> Seq<Seq<char>>
    decreases s.len(),
{
    if s.len() == 0 {
        seq![]
    } else {
        let rest = stdout_texts(s.drop_last());
        let t = joined_text(s.last().parts);
        if !s.last().printed_to_stdout && t.len() > 0 {
            rest.push(t)
        } else {
            rest
        }
    }
}

/// Containers not yet printed, in order.
pub open spec fn unprinted(s: Seq<ContainerView>) -> Seq<ContainerView>
    decreases s.len(),
{
    if s.len() == 0 {
        seq![]
    } else if s.last().printed_to_stdout {
        unprinted(s.drop_last())
    } else {
        unprinted(s.drop_last()).push(s.last())
    }
}

/// Number of streaming containers.
pub open spec fn streaming_count(s: Seq<ContainerView>) -> nat
    decreases s.len(),
{
    if s.len() == 0 {
        0
    } else {
        streaming_count(s.drop_last()) + if s.last().is_streaming {
            1nat
        } else {
            0nat
        }
    }
}


/// The containers after `info` is stored: an existing message gets the new
/// metadata and time; a new one is appended, streaming, with no parts.
pub open spec fn updated_message(s: Seq<ContainerView>, info: Message, now: u64) -> Seq<
    ContainerView,
> {
    let i = msg_index(s, message_id_of(info));
    if i >= 0 {
        s.update(i, ContainerView { info: info, last_updated: now, ..s[i] })
    } else {
        s.push(
            ContainerView {
                info: info,
                parts: seq![],
                is_streaming: true,
                last_updated: now,
                printed_to_stdout: false,
            },
        )
    }
}

/// The containers after part `p` is stored into its message at position `i`.
pub open spec fn updated_part(s: Seq<ContainerView>, i: int, p: Part, now: u64) -> Seq<
    ContainerView,
> {
    s.update(
        i,
        ContainerView {
            parts: upsert_part(s[i].parts, p),
            is_streaming: true,
            last_updated: now,
            ..s[i]
        },
    )
}

proof fn lemma_update_same_id_wf(s: Seq<ContainerView>, i: int, c: ContainerView)
    requires
        containers_wf(s),
        0 <= i < s.len(),
        message_id_of(c.info) == message_id_of(s[i].info),
        parts_unique(c.parts),
    ensures
        containers_wf(s.update(i, c)),
{
    let r = s.update(i, c);
    assert forall|a: int, b: int| 0 <= a < b < r.len() implies message_id_of(
        #[trigger] r[a].info,
    ) != message_id_of(#[trigger] r[b].info) by {
        assert(message_id_of(r[a].info) == message_id_of(s[a].info));
        assert(message_id_of(r[b].info) == message_id_of(s[b].info));
    }
}

proof fn lemma_remove_wf(s: Seq<ContainerView>, i: int)
    requires
        containers_wf(s),
        0 <= i < s.len(),
    ensures
        containers_wf(s.remove(i)),
        !has_msg(s.remove(i), message_id_of(s[i].info)),
{
    let r = s.remove(i);
    assert forall|a: int, b: int| 0 <= a < b < r.len() implies message_id_of(
        #[trigger] r[a].info,
    ) != message_id_of(#[trigger] r[b].info) by {
        let a2 = if a < i { a } else { a + 1 };
        let b2 = if b < i { b } else { b + 1 };
        assert(r[a] == s[a2]);
        assert(r[b] == s[b2]);
    }
    assert forall|k: int| 0 <= k < r.len() implies message_id_of(r[k].info) != message_id_of(
        s[i].info,
    ) by {
        let k2 = if k < i { k } else { k + 1 };
        assert(r[k] == s[k2]);
    }
}

proof fn lemma_views_push(s: Seq<MessageContainer>, c: MessageContainer)
    ensures
        views(s.push(c)) == views(s).push(c@),
{
    assert(views(s.push(c)) =~= views(s).push(c@));
}

proof fn lemma_views_update(s: Seq<MessageContainer>, i: int, c: MessageContainer)
    requires
        0 <= i < s.len(),
    ensures
        views(s.update(i, c)) == views(s).update(i, c@),
{
    assert(views(s.update(i, c)) =~= views(s).update(i, c@));
}

proof fn lemma_msg_index_unique(s: Seq<ContainerView>, i: int)
    requires
        containers_wf(s),
        0 <= i < s.len(),
    ensures
        msg_index(s, message_id_of(s[i].info)) == i,
{
    let id = message_id_of(s[i].info);
    assert(has_msg(s, id));
    let j = choose|j: int| 0 <= j < s.len() && message_id_of(s[j].info) == id;
    if j < i {
        assert(message_id_of(s[j].info) != message_id_of(s[i].info));
    } else if j > i {
        assert(message_id_of(s[i].info) != message_id_of(s[j].info));
    }
}

proof fn lemma_part_index_unique(s: Seq<Part>, i: int)
    requires
        parts_unique(s),
        0 <= i < s.len(),
    ensures
        part_index(s, part_id_of(s[i])) == i,
{
    let id = part_id_of(s[i]);
    assert(has_part(s, id));
    let j = choose|j: int| 0 <= j < s.len() && part_id_of(s[j]) == id;
    if j < i {
        assert(part_id_of(s[j]) != part_id_of(s[i]));
    } else if j > i {
        assert(part_id_of(s[i]) != part_id_of(s[j]));
    }
}

proof fn lemma_upsert_part_unique(parts: Seq<Part>, p: Part)
    requires
        parts_unique(parts),
    ensures
        parts_unique(upsert_part(parts, p)),
        has_part(upsert_part(parts, p), part_id_of(p)),
{
    let i = part_index(parts, part_id_of(p));
    let r = upsert_part(parts, p);
    if has_part(parts, part_id_of(p)) {
        assert(0 <= i < parts.len() && part_id_of(parts[i]) == part_id_of(p));
        assert(part_id_of(r[i]) == part_id_of(p));
    } else {
        assert(part_id_of(r[parts.len() as int]) == part_id_of(p));
        assert forall|a: int, b: int| 0 <= a < b < r.len() implies part_id_of(#[trigger] r[a])
            != part_id_of(#[trigger] r[b]) by {
            if b == parts.len() {
                assert(r[a] == parts[a]);
            }
        }
    }
}

proof fn lemma_merged_parts_unique(list: Seq<Part>)
    ensures
        parts_unique(merged_parts(list)),
    decreases list.len(),
{
    if list.len() > 0 {
        lemma_merged_parts_unique(list.drop_last());
        lemma_upsert_part_unique(merged_parts(list.drop_last()), list.last());
    }
}

proof fn lemma_upsert_msg_wf(s: Seq<ContainerView>, c: ContainerView)
    requires
        containers_wf(s),
        parts_unique(c.parts),
    ensures
        containers_wf(upsert_msg(s, c)),
        has_msg(upsert_msg(s, c), message_id_of(c.info)),
{
    let i = msg_index(s, message_id_of(c.info));
    let r = upsert_msg(s, c);
    if has_msg(s, message_id_of(c.info)) {
        assert(0 <= i < s.len() && message_id_of(s[i].info) == message_id_of(c.info));
        assert(message_id_of(r[i].info) == message_id_of(c.info));
    } else {
        assert(message_id_of(r[s.len() as int].info) == message_id_of(c.info));
        assert forall|a: int, b: int| 0 <= a < b < r.len() implies message_id_of(
            #[trigger] r[a].info,
        ) != message_id_of(#[trigger] r[b].info) by {
            if b == s.len() {
                assert(r[a] == s[a]);
            }
        }
    }
}

proof fn lemma_loaded_wf(list: Seq<SessionMessage>, now: u64)
    ensures
        containers_wf(loaded(list, now)),
    decreases list.len(),
{
    if list.len() > 0 {
        lemma_loaded_wf(list.drop_last(), now);
        lemma_merged_parts_unique(list.last().parts@);
        lemma_upsert_msg_wf(loaded(list.drop_last(), now), loaded_container(list.last(), now));
    }
}

/// Texts of the text parts joined by spaces.
fn joined_text_exec(parts: &Vec<Part>) -> (r: Vec<char>)
    ensures
        r@ == joined_text(parts@),
{
    let mut r: Vec<char> = Vec::new();
    let mut i: usize = 0;
    while i < parts.len()
        invariant
            i <= parts@.len(),
            r@ == joined_text(parts@.take(i as int)),
        decreases parts.len() - i,
    {
        assert(parts@.take(i + 1).drop_last() =~= parts@.take(i as int));
        match &parts[i] {
            Part::Text(t) => {
                if r.len() > 0 {
                    r.push(' ');
                }
                let tc = chars_of(t.text.as_str());
                push_all(&mut r, tc.as_slice());
            },
            _ => {},
        }
        i = i + 1;
    }
    assert(parts@.take(i as int) =~= parts@);
    r
}

/// Position of the message with id `id` among `msgs`.
fn find_message(msgs: &Vec<MessageContainer>, id: &String) -> (r: Option<usize>)
    requires
        containers_wf(views(msgs@)),
    ensures
        match r {
            Some(i) => i < msgs@.len() && msg_index(views(msgs@), id@) == i,
            None => !has_msg(views(msgs@), id@) && msg_index(views(msgs@), id@) == -1,
        },
{
    let mut i: usize = 0;
    while i < msgs.len()
        invariant
            i <= msgs@.len(),
            containers_wf(views(msgs@)),
            forall|k: int| 0 <= k < i ==> message_id_of(#[trigger] msgs@[k].info) != id@,
        decreases msgs.len() - i,
    {
        let mid = extract_message_id(&msgs[i].info);
        if string_eq(mid, id) {
            proof {
                assert(views(msgs@)[i as int].info == msgs@[i as int].info);
                lemma_msg_index_unique(views(msgs@), i as int);
            }
            return Some(i);
        }
        i = i + 1;
    }
    proof {
        assert forall|k: int| 0 <= k < views(msgs@).len() implies message_id_of(
            views(msgs@)[k].info,
        ) != id@ by {
            assert(views(msgs@)[k].info == msgs@[k].info);
        }
    }
    None
}

/// Position of the part with id `id` among `parts`.
fn find_part(parts: &Vec<Part>, id: &String) -> (r: Option<usize>)
    requires
        parts_unique(parts@),
    ensures
        match r {
            Some(i) => i < parts@.len() && part_index(parts@, id@) == i,
            None => !has_part(parts@, id@) && part_index(parts@, id@) == -1,
        },
{
    let mut i: usize = 0;
    while i < parts.len()
        invariant
            i <= parts@.len(),
            parts_unique(parts@),
            forall|k: int| 0 <= k < i ==> part_id_of(#[trigger] parts@[k]) != id@,
        decreases parts.len() - i,
    {
        let pid = extract_part_id(&parts[i]);
        if string_eq(pid, id) {
            proof {
                lemma_part_index_unique(parts@, i as int);
            }
            return Some(i);
        }
        i = i + 1;
    }
    None
}

/// Replaces the part with the same id or appends it.
fn upsert_part_exec(parts: &mut Vec<Part>, p: Part)
    requires
        parts_unique(old(parts)@),
    ensures
        final(parts)@ == upsert_part(old(parts)@, p),
        parts_unique(final(parts)@),
{
    proof {
        lemma_upsert_part_unique(parts@, p);
    }
    let id = extract_part_id(&p).clone();
    match find_part(parts, &id) {
        Some(i) => {
            parts.set(i, p);
        },
        None => {
            parts.push(p);
        },
    }
}

impl MessageState {
    /// The stored containers in display order.
    pub closed spec fn messages_view(&self) -> Seq<ContainerView> {
        views(self.messages@)
    }

    /// The session whose messages are kept.
    pub closed spec fn session_view(&self) -> Option<Seq<char>> {
        opt_str(self.current_session_id)
    }

    /// Message ids are distinct and part ids distinct within each message.
    pub closed spec fn wf(&self) -> bool {
        containers_wf(views(self.messages@))
    }

    /// An empty store bound to no session.
    pub fn new() -> (r: Self)
        ensures
            r.wf(),
            r.messages_view() == Seq::<ContainerView>::empty(),
            r.session_view() is None,
    {
        let r = MessageState { messages: Vec::new(), current_session_id: None };
        assert(views(r.messages@) =~= Seq::<ContainerView>::empty());
        r
    }

    /// Binds the store to a session; switching to a different one drops the messages.
    pub fn set_session_id(&mut self, session_id: Option<String>)
        requires
            old(self).wf(),
        ensures
            final(self).wf(),
            final(self).session_view() == opt_str(session_id),
            old(self).session_view() != opt_str(session_id) ==> final(self).messages_view()
                == Seq::<ContainerView>::empty(),
            old(self).session_view() == opt_str(session_id) ==> final(self).messages_view()
                == old(self).messages_view(),
    {
        let same = match (&self.current_session_id, &session_id) {
            (Some(a), Some(b)) => string_eq(a, b),
            (None, None) => true,
            _ => false,
        };
        if !same {
            self.clear();
            self.current_session_id = session_id;
        }
    }

    /// Drops every message.
    pub fn clear(&mut self)
        ensures
            final(self).wf(),
            final(self).messages_view() == Seq::<ContainerView>::empty(),
            final(self).session_view() == old(self).session_view(),
    {
        self.messages = Vec::new();
        assert(views(self.messages@) =~= Seq::<ContainerView>::empty());
    }

    /// Whether no message is stored.
    pub fn is_empty(&self) -> (b: bool)
        ensures
            b == (self.messages_view().len() == 0),
    {
        self.messages.len() == 0
    }

    /// Replaces the store's messages with a listing from the server.
    /// Repeated ids keep their first position and their last value.
    pub fn load_messages(&mut self, messages: Vec<SessionMessage>, now: u64)
        requires
            old(self).wf(),
        ensures
            final(self).wf(),
            final(self).messages_view() == loaded(messages@, now),
            final(self).session_view() == old(self).session_view(),
    {
        self.clear();
        let mut list = messages;
        let ghost all = list@;
        let mut acc: Vec<MessageContainer> = Vec::new();
        let mut i: usize = 0;
        let n = list.len();
        assert(views(acc@) =~= loaded(all.take(0), now));
        assert(list@ =~= all.skip(0));
        while i < n
            invariant
                n == all.len(),
                i <= n,
                list@ == all.skip(i as int),
                views(acc@) == loaded(all.take(i as int), now),
                containers_wf(views(acc@)),
            decreases n - i,
        {
            let m = list.remove(0);
            assert(list@ =~= all.skip(i + 1));
            let mut parts: Vec<Part> = Vec::new();
            let mut src = m.parts;
            let ghost plist = src@;
            let pn = src.len();
            let mut j: usize = 0;
            assert(parts@ =~= merged_parts(plist.take(0)));
            assert(src@ =~= plist.skip(0));
            while j < pn
                invariant
                    pn == plist.len(),
                    j <= pn,
                    src@ == plist.skip(j as int),
                    parts@ == merged_parts(plist.take(j as int)),
                    parts_unique(parts@),
                decreases pn - j,
            {
                let p = src.remove(0);
                assert(src@ =~= plist.skip(j + 1));
                assert(plist.take(j + 1).drop_last() =~= plist.take(j as int));
                upsert_part_exec(&mut parts, p);
                j = j + 1;
            }
            assert(plist.take(pn as int) =~= plist);
            let c = MessageContainer {
                info: m.info,
                parts,
                is_streaming: false,
                last_updated: now,
                printed_to_stdout: false,
            };
            assert(c@ == loaded_container(all[i as int], now));
            assert(all.take(i + 1).drop_last() =~= all.take(i as int));
            proof {
                lemma_loaded_wf(all.take(i as int), now);
            }
            self.upsert_message_into(&mut acc, c);
            i = i + 1;
        }
        assert(all.take(n as int) =~= all);
        self.messages = acc;
    }

    /// Stores message metadata from the server. Messages of another session
    /// than the bound one are ignored (`false`).
    pub fn update_message(&mut self, message_info: Message, now: u64) -> (changed: bool)
        requires
            old(self).wf(),
        ensures
            final(self).wf(),
            final(self).session_view() == old(self).session_view(),
            changed == in_session(old(self).session_view(), message_session_of(message_info)),
            changed ==> final(self).messages_view() == updated_message(
                old(self).messages_view(),
                message_info,
                now,
            ),
            !changed ==> final(self).messages_view() == old(self).messages_view(),
    {
        let message_id = extract_message_id(&message_info).clone();
        match &self.current_session_id {
            Some(current) => {
                let sid = extract_session_id_from_message(&message_info);
                if !string_eq(sid, current) {
                    return false;
                }
            },
            None => {},
        }
        match find_message(&self.messages, &message_id) {
            Some(i) => {
                let ghost old_msgs = self.messages@;
                let mut c = self.messages.remove(i);
                c.info = message_info;
                c.last_updated = now;
                proof {
                    assert(views(old_msgs)[i as int] == old_msgs[i as int]@);
                    assert(parts_unique(views(old_msgs)[i as int].parts));
                    lemma_update_same_id_wf(views(old_msgs), i as int, c@);
                    lemma_views_update(old_msgs, i as int, c);
                }
                self.messages.insert(i, c);
                assert(self.messages@ =~= old_msgs.update(i as int, c));
                true
            },
            None => {
                let c = MessageContainer {
                    info: message_info,
                    parts: Vec::new(),
                    is_streaming: true,
                    last_updated: now,
                    printed_to_stdout: false,
                };
                assert(c@.parts =~= Seq::<Part>::empty());
                proof {
                    lemma_upsert_msg_wf(views(self.messages@), c@);
                    lemma_views_push(self.messages@, c);
                }
                self.messages.push(c);
                true
            },
        }
    }

    /// Stores a part into its message. Parts of another session, or of a
    /// message not stored, are ignored (`false`).
    pub fn update_message_part(&mut self, part: Part, now: u64) -> (changed: bool)
        requires
            old(self).wf(),
        ensures
            final(self).wf(),
            final(self).session_view() == old(self).session_view(),
            changed == (in_session(old(self).session_view(), part_session_of(part)) && has_msg(
                old(self).messages_view(),
                part_message_of(part),
            )),
            changed ==> final(self).messages_view() == updated_part(
                old(self).messages_view(),
                msg_index(old(self).messages_view(), part_message_of(part)),
                part,
                now,
            ),
            !changed ==> final(self).messages_view() == old(self).messages_view(),
    {
        let message_id = extract_message_id_from_part(&part).clone();
        match &self.current_session_id {
            Some(current) => {
                let sid = extract_session_id_from_part(&part);
                if !string_eq(sid, current) {
                    return false;
                }
            },
            None => {},
        }
        match find_message(&self.messages, &message_id) {
            Some(i) => {
                let ghost old_msgs = self.messages@;
                let mut c = self.messages.remove(i);
                proof {
                    assert(views(old_msgs)[i as int] == old_msgs[i as int]@);
                    assert(parts_unique(views(old_msgs)[i as int].parts));
                }
                upsert_part_exec(&mut c.parts, part);
                c.last_updated = now;
                c.is_streaming = true;
                proof {
                    lemma_update_same_id_wf(views(old_msgs), i as int, c@);
                    lemma_views_update(old_msgs, i as int, c);
                }
                self.messages.insert(i, c);
                assert(self.messages@ =~= old_msgs.update(i as int, c));
                true
            },
            None => false,
        }
    }

    /// Removes a message. Removals for another session, or of a message not
    /// stored, are ignored (`false`).
    pub fn remove_message(&mut self, session_id: &str, message_id: &str) -> (removed: bool)
        requires
            old(self).wf(),
        ensures
            final(self).wf(),
            final(self).session_view() == old(self).session_view(),
            removed == (in_session(old(self).session_view(), session_id@) && has_msg(
                old(self).messages_view(),
                message_id@,
            )),
            removed ==> final(self).messages_view() == old(self).messages_view().remove(
                msg_index(old(self).messages_view(), message_id@),
            ),
            removed ==> !has_msg(final(self).messages_view(), message_id@),
            !removed ==> final(self).messages_view() == old(self).messages_view(),
    {
        match &self.current_session_id {
            Some(current) => {
                let cs = chars_of(current.as_str());
                if !crate::text::str_eq_chars(session_id, cs.as_slice()) {
                    return false;
                }
            },
            None => {},
        }
        let id = crate::text::string_from_chars(chars_of(message_id).as_slice());
        match find_message(&self.messages, &id) {
            Some(i) => {
                let ghost old_msgs = self.messages@;
                proof {
                    assert(views(old_msgs)[i as int] == old_msgs[i as int]@);
                    lemma_remove_wf(views(old_msgs), i as int);
                }
                self.messages.remove(i);
                assert(views(self.messages@) =~= views(old_msgs).remove(i as int));
                true
            },
            None => false,
        }
    }

    /// Marks a message as no longer streaming.
    pub fn mark_message_complete(&mut self, message_id: &str)
        requires
            old(self).wf(),
        ensures
            final(self).wf(),
            final(self).session_view() == old(self).session_view(),
            has_msg(old(self).messages_view(), message_id@) ==> final(self).messages_view()
                == old(self).messages_view().update(
                msg_index(old(self).messages_view(), message_id@),
                ContainerView {
                    is_streaming: false,
                    ..old(self).messages_view()[msg_index(old(self).messages_view(), message_id@)]
                },
            ),
            !has_msg(old(self).messages_view(), message_id@) ==> final(self).messages_view()
                == old(self).messages_view(),
    {
        let id = crate::text::string_from_chars(chars_of(message_id).as_slice());
        match find_message(&self.messages, &id) {
            Some(i) => {
                let ghost old_msgs = self.messages@;
                let mut c = self.messages.remove(i);
                c.is_streaming = false;
                proof {
                    assert(views(old_msgs)[i as int] == old_msgs[i as int]@);
                    lemma_update_same_id_wf(views(old_msgs), i as int, c@);
                    lemma_views_update(old_msgs, i as int, c);
                }
                self.messages.insert(i, c);
                assert(self.messages@ =~= old_msgs.update(i as int, c));
            },
            None => {},
        }
    }

    /// All containers in display order.
    pub fn get_all_message_containers(&self) -> (r: Vec<&MessageContainer>)
        ensures
            r@.len() == self.messages_view().len(),
            forall|i: int| 0 <= i < r@.len() ==> (#[trigger] r@[i])@ == self.messages_view()[i],
    {
        let mut r: Vec<&MessageContainer> = Vec::new();
        let mut i: usize = 0;
        while i < self.messages.len()
            invariant
                i <= self.messages@.len(),
                r@.len() == i,
                forall|k: int| 0 <= k < i ==> (#[trigger] r@[k])@ == self.messages@[k]@,
            decreases self.messages.len() - i,
        {
            r.push(&self.messages[i]);
            i = i + 1;
        }
        r
    }

    /// Copies of the stored containers, in order.
    pub fn snapshot(&self) -> (r: Vec<MessageContainer>)
        ensures
            containers_copy(self.messages_view(), views(r@)),
    {
        let mut r: Vec<MessageContainer> = Vec::new();
        let mut i: usize = 0;
        while i < self.messages.len()
            invariant
                i <= self.messages@.len(),
                r@.len() == i,
                forall|k: int| 0 <= k < i ==> container_copy(#[trigger] self.messages@[k]@, r@[k]@),
            decreases self.messages.len() - i,
        {
            r.push(self.messages[i].clone());
            i = i + 1;
        }
        proof {
            assert forall|k: int| 0 <= k < views(self.messages@).len() implies container_copy(
                #[trigger] views(self.messages@)[k],
                views(r@)[k],
            ) by {
                assert(views(self.messages@)[k] == self.messages@[k]@);
                assert(views(r@)[k] == r@[k]@);
            }
        }
        r
    }

    /// Whether a stored message is still streaming.
    pub fn is_message_streaming(&self, message_id: &str) -> (b: bool)
        requires
            self.wf(),
        ensures
            b == (has_msg(self.messages_view(), message_id@) && self.messages_view()[msg_index(
                self.messages_view(),
                message_id@,
            )].is_streaming),
    {
        let id = crate::text::string_from_chars(chars_of(message_id).as_slice());
        match find_message(&self.messages, &id) {
            Some(i) => {
                assert(views(self.messages@)[i as int] == self.messages@[i as int]@);
                self.messages[i].is_streaming
            },
            None => false,
        }
    }

    /// Number of messages still streaming.
    pub fn get_streaming_message_count(&self) -> (n: usize)
        ensures
            n == streaming_count(self.messages_view()),
    {
        let mut n: usize = 0;
        let mut i: usize = 0;
        while i < self.messages.len()
            invariant
                i <= self.messages@.len(),
                n == streaming_count(views(self.messages@).take(i as int)),
                n <= i,
            decreases self.messages.len() - i,
        {
            assert(views(self.messages@).take(i + 1).drop_last() =~= views(self.messages@).take(
                i as int,
            ));
            if self.messages[i].is_streaming {
                n = n + 1;
            }
            i = i + 1;
        }
        assert(views(self.messages@).take(i as int) =~= views(self.messages@));
        n
    }

    /// Text of each unprinted message that has text, its text parts joined by spaces.
    pub fn get_messages_needing_stdout_print(&self) -> (r: Vec<String>)
        ensures
            r@.map_values(|s: String| s@) == stdout_texts(self.messages_view()),
    {
        let mut r: Vec<String> = Vec::new();
        let mut i: usize = 0;
        while i < self.messages.len()
            invariant
                i <= self.messages@.len(),
                r@.map_values(|s: String| s@) == stdout_texts(views(self.messages@).take(i as int)),
            decreases self.messages.len() - i,
        {
            let ghost before = r@.map_values(|s: String| s@);
            assert(views(self.messages@).take(i + 1).drop_last() =~= views(self.messages@).take(
                i as int,
            ));
            let c = &self.messages[i];
            if !c.printed_to_stdout {
                let t = joined_text_exec(&c.parts);
                if t.len() > 0 {
                    let s = crate::text::string_from_chars(t.as_slice());
                    r.push(s);
                    assert(r@.map_values(|s: String| s@) =~= before.push(t@));
                }
            }
            i = i + 1;
        }
        assert(views(self.messages@).take(i as int) =~= views(self.messages@));
        r
    }

    /// Marks the first `count` unprinted messages as printed.
    pub fn mark_messages_printed_to_stdout(&mut self, count: usize)
        requires
            old(self).wf(),
        ensures
            final(self).wf(),
            final(self).session_view() == old(self).session_view(),
            final(self).messages_view() == mark_printed(old(self).messages_view(), count as nat),
    {
        let ghost s0 = views(self.messages@);
        let mut marked: usize = 0;
        let mut i: usize = 0;
        let n = self.messages.len();
        while i < n
            invariant
                n == s0.len(),
                self.messages@.len() == n,
                self.current_session_id == old(self).current_session_id,
                i <= n,
                marked as nat == if unprinted_count(s0.take(i as int)) < count as nat {
                    unprinted_count(s0.take(i as int))
                } else {
                    count as nat
                },
                forall|k: int| 0 <= k < i ==> (#[trigger] views(self.messages@)[k]) == mark_printed(s0, count as nat)[k],
                forall|k: int| i <= k < n ==> (#[trigger] views(self.messages@)[k]) == s0[k],
            decreases n - i,
        {
            assert(s0.take(i + 1).drop_last() =~= s0.take(i as int));
            assert(views(self.messages@)[i as int] == self.messages@[i as int]@);
            if marked < count && !self.messages[i].printed_to_stdout {
                let ghost before = self.messages@;
                let mut c = self.messages.remove(i);
                c.printed_to_stdout = true;
                self.messages.insert(i, c);
                assert(self.messages@ =~= before.update(i as int, c));
                assert forall|k: int| 0 <= k < n && k != i implies (#[trigger] views(self.messages@)[k]) == views(before)[k] by {
                    assert(views(self.messages@)[k] == self.messages@[k]@);
                    assert(views(before)[k] == before[k]@);
                }
                marked = marked + 1;
            }
            i = i + 1;
        }
        assert(views(self.messages@) =~= mark_printed(s0, count as nat));
        proof {
            assert forall|a: int| 0 <= a < s0.len() implies (#[trigger] mark_printed(s0, count as nat)[a]).info == s0[a].info && mark_printed(s0, count as nat)[a].parts == s0[a].parts by {}
        }
    }

    /// Whether any message has not been printed yet.
    pub fn has_messages_needing_stdout_print(&self) -> (b: bool)
        ensures
            b == exists|i: int|
                0 <= i < self.messages_view().len() && !(#[trigger] self.messages_view()[i]).printed_to_stdout,
    {
        let mut i: usize = 0;
        while i < self.messages.len()
            invariant
                i <= self.messages@.len(),
                forall|k: int| 0 <= k < i ==> (#[trigger] views(self.messages@)[k]).printed_to_stdout,
            decreases self.messages.len() - i,
        {
            assert(views(self.messages@)[i as int] == self.messages@[i as int]@);
            if !self.messages[i].printed_to_stdout {
                return true;
            }
            i = i + 1;
        }
        false
    }

    /// Containers not yet printed, in display order.
    pub fn get_message_containers_for_rendering(&self) -> (r: Vec<&MessageContainer>)
        ensures
            r@.map_values(|c: &MessageContainer| c@) == unprinted(self.messages_view()),
    {
        let mut r: Vec<&MessageContainer> = Vec::new();
        let mut i: usize = 0;
        while i < self.messages.len()
            invariant
                i <= self.messages@.len(),
                r@.map_values(|c: &MessageContainer| c@) == unprinted(views(self.messages@).take(i as int)),
            decreases self.messages.len() - i,
        {
            let ghost before = r@.map_values(|c: &MessageContainer| c@);
            assert(views(self.messages@).take(i + 1).drop_last() =~= views(self.messages@).take(
                i as int,
            ));
            if !self.messages[i].printed_to_stdout {
                r.push(&self.messages[i]);
                assert(r@.map_values(|c: &MessageContainer| c@) =~= before.push(self.messages@[i as int]@));
            }
            i = i + 1;
        }
        assert(views(self.messages@).take(i as int) =~= views(self.messages@));
        r
    }

    /// Replaces the container with the same message id in `acc`, or appends it.
    fn upsert_message_into(&self, acc: &mut Vec<MessageContainer>, c: MessageContainer)
        requires
            containers_wf(views(old(acc)@)),
            parts_unique(c@.parts),
        ensures
            views(final(acc)@) == upsert_msg(views(old(acc)@), c@),
            containers_wf(views(final(acc)@)),
    {
        proof {
            lemma_upsert_msg_wf(views(acc@), c@);
        }
        let id = extract_message_id(&c.info).clone();
        match find_message(acc, &id) {
            Some(i) => {
                proof {
                    lemma_views_update(acc@, i as int, c);
                }
                acc.set(i, c);
            },
            None => {
                proof {
                    lemma_views_push(acc@, c);
                }
                acc.push(c);
            },
        }
    }
}


// ---------------------------------------------------------------------------
// Laws
// ---------------------------------------------------------------------------

/// Storing message metadata and then reading the message back gives the
/// stored metadata; every other message stays stored, and nothing else is
/// added.
pub proof fn law_update_message_then_read(s: Seq<ContainerView>, info: Message, now: u64)
    requires
        containers_wf(s),
    ensures
        ({
            let r = updated_message(s, info, now);
            let id = message_id_of(info);
            &&& containers_wf(r)
            &&& has_msg(r, id)
            &&& r[msg_index(r, id)].info == info
            &&& forall|other: Seq<char>| other != id ==> (has_msg(r, other) <==> has_msg(s, other))
        }),
{
    let id = message_id_of(info);
    let i = msg_index(s, id);
    let r = updated_message(s, info, now);
    if i >= 0 {
        assert(0 <= i < s.len() && message_id_of(s[i].info) == id);
        lemma_update_same_id_wf(s, i, ContainerView { info: info, last_updated: now, ..s[i] });
        lemma_msg_index_unique(r, i);
        assert forall|other: Seq<char>| other != id implies (has_msg(r, other) <==> has_msg(
            s,
            other,
        )) by {
            if has_msg(s, other) {
                let k = choose|k: int| 0 <= k < s.len() && message_id_of(s[k].info) == other;
                assert(message_id_of(r[k].info) == other);
            }
            if has_msg(r, other) {
                let k = choose|k: int| 0 <= k < r.len() && message_id_of(r[k].info) == other;
                assert(message_id_of(s[k].info) == other);
            }
        }
    } else {
        let c = ContainerView {
            info: info,
            parts: seq![],
            is_streaming: true,
            last_updated: now,
            printed_to_stdout: false,
        };
        assert(c.parts =~= Seq::<Part>::empty());
        lemma_upsert_msg_wf(s, c);
        assert(upsert_msg(s, c) == r);
        lemma_msg_index_unique(r, s.len() as int);
        assert forall|other: Seq<char>| other != id implies (has_msg(r, other) <==> has_msg(
            s,
            other,
        )) by {
            if has_msg(s, other) {
                let k = choose|k: int| 0 <= k < s.len() && message_id_of(s[k].info) == other;
                assert(message_id_of(r[k].info) == other);
            }
            if has_msg(r, other) {
                let k = choose|k: int| 0 <= k < r.len() && message_id_of(r[k].info) == other;
                assert(k < s.len());
                assert(message_id_of(s[k].info) == other);
            }
        }
    }
}

/// Storing a part into its message and then reading that part back gives
/// the stored part; the message keeps every other part.
pub proof fn law_update_part_then_read(s: Seq<ContainerView>, i: int, p: Part, now: u64)
    requires
        containers_wf(s),
        0 <= i < s.len(),
    ensures
        ({
            let ps = updated_part(s, i, p, now)[i].parts;
            let pid = part_id_of(p);
            &&& parts_unique(ps)
            &&& has_part(ps, pid)
            &&& ps[part_index(ps, pid)] == p
            &&& forall|other: Seq<char>|
                other != pid ==> (has_part(ps, other) <==> has_part(s[i].parts, other))
        }),
{
    let old_ps = s[i].parts;
    let pid = part_id_of(p);
    let ps = upsert_part(old_ps, p);
    assert(updated_part(s, i, p, now)[i].parts == ps);
    assert(parts_unique(old_ps));
    lemma_upsert_part_unique(old_ps, p);
    let j = part_index(old_ps, pid);
    if j >= 0 {
        assert(0 <= j < old_ps.len() && part_id_of(old_ps[j]) == pid);
        assert(ps[j] == p);
        lemma_part_index_unique(ps, j);
        assert forall|other: Seq<char>| other != pid implies (has_part(ps, other) <==> has_part(
            old_ps,
            other,
        )) by {
            if has_part(old_ps, other) {
                let k = choose|k: int| 0 <= k < old_ps.len() && part_id_of(old_ps[k]) == other;
                assert(part_id_of(ps[k]) == other);
            }
            if has_part(ps, other) {
                let k = choose|k: int| 0 <= k < ps.len() && part_id_of(ps[k]) == other;
                assert(part_id_of(old_ps[k]) == other);
            }
        }
    } else {
        assert(ps == old_ps.push(p));
        assert(ps[old_ps.len() as int] == p);
        lemma_part_index_unique(ps, old_ps.len() as int);
        assert forall|other: Seq<char>| other != pid implies (has_part(ps, other) <==> has_part(
            old_ps,
            other,
        )) by {
            if has_part(old_ps, other) {
                let k = choose|k: int| 0 <= k < old_ps.len() && part_id_of(old_ps[k]) == other;
                assert(part_id_of(ps[k]) == other);
            }
            if has_part(ps, other) {
                let k = choose|k: int| 0 <= k < ps.len() && part_id_of(ps[k]) == other;
                assert(k < old_ps.len());
                assert(part_id_of(old_ps[k]) == other);
            }
        }
    }
}

proof fn lemma_unprinted_count_take(s: Seq<ContainerView>, j: int)
    requires
        0 <= j <= s.len(),
    ensures
        unprinted_count(s.take(j)) <= unprinted_count(s),
    decreases s.len(),
{
    if j < s.len() {
        assert(s.drop_last().take(j) =~= s.take(j));
        lemma_unprinted_count_take(s.drop_last(), j);
    } else {
        assert(s.take(j) =~= s);
    }
}

proof fn lemma_unprinted_count_zero(s: Seq<ContainerView>)
    requires
        forall|i: int| 0 <= i < s.len() ==> (#[trigger] s[i]).printed_to_stdout,
    ensures
        unprinted_count(s) == 0,
        unprinted(s) == Seq::<ContainerView>::empty(),
        stdout_texts(s) == Seq::<Seq<char>>::empty(),
    decreases s.len(),
{
    if s.len() > 0 {
        assert(s.last() == s[s.len() - 1]);
        lemma_unprinted_count_zero(s.drop_last());
    }
}

/// Marking as many messages printed as there are unprinted ones leaves none
/// to print.
pub proof fn law_mark_all_printed(s: Seq<ContainerView>)
    ensures
        unprinted_count(mark_printed(s, unprinted_count(s))) == 0,
        stdout_texts(mark_printed(s, unprinted_count(s))) == Seq::<Seq<char>>::empty(),
{
    let n = unprinted_count(s);
    let m = mark_printed(s, n);
    assert forall|i: int| 0 <= i < m.len() implies (#[trigger] m[i]).printed_to_stdout by {
        if !s[i].printed_to_stdout {
            lemma_unprinted_count_take(s, i + 1);
            assert(s.take(i + 1).drop_last() =~= s.take(i));
            assert(s.take(i + 1).last() == s[i]);
        }
    }
    lemma_unprinted_count_zero(m);
}

} // verus!
