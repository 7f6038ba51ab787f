use vstd::prelude::*;

use crate::content::{extract_media, extracted, MessageContent};
use crate::correlation::{find_cached, is_cached, TimelineEvent};
use crate::reference::{download_url_text, get_media_download_url, parse_reference, Homeserver};
use crate::reply::{
    compose_reply,
    link_body,
    link_text,
    unresolved_body,
    unresolved_text,
    unsupported_body,
    unsupported_text,
    Reply,
    ReplyRelation,
};
use crate::staging::fits_payload;

verus! {

/// What the relay is configured with.
pub struct Settings {
    /// The chat server from which media is downloaded.
    pub homeserver: Homeserver,
    /// The base of the links sent back, as in `{gateway}/ipfs/{hash}`.
    pub gateway: String,
    /// The largest body, in bytes, that is staged.
    pub max_payload: usize,
    /// How many times a download is tried before a transport failure ends the handling.
    pub max_attempts: u64,
}

impl Settings {
    pub open spec fn wf(&self) -> bool {
        self.max_attempts >= 1
    }
}

/// Where the handling of one triggering message stands.
#[derive(Debug, Clone, Copy, PartialEq, Eq, Structural)]
pub enum Stage {
    Fetching,
    Downloading,
    Staging,
    Uploading,
    Removing,
    Pinning,
    Replying,
    Done,
}

/// The outside work that the handler asks for next.
pub enum Action {
    /// Fetch the event with this id from the server.
    FetchEvent { event_id: String },
    /// Download this URL.
    Download { url: String },
    /// Write the downloaded body to the staged file of this key.
    WriteStaged { key: u64 },
    /// Upload the staged file of this key to the content store.
    Upload { key: u64 },
    /// Delete the staged file of this key.
    RemoveStaged { key: u64 },
    /// Pin this content address, recursively.
    Pin { hash: String },
    /// Send this reply to the room.
    SendReply { reply: Reply },
    /// Nothing is left to do.
    Finish,
}

/// What came of the outside work last asked for.
pub enum Outcome {
    /// The fetched event, or `None` when the fetch failed.
    Fetched(Option<TimelineEvent>),
    /// The size of the downloaded body, or `None` on a transport failure.
    Downloaded(Option<usize>),
    /// Whether the staged file was written.
    Written(bool),
    /// The content address, or `None` when the upload failed.
    Uploaded(Option<String>),
    /// The staged file was deleted.
    Removed,
    /// Whether the pin succeeded.
    Pinned(bool),
    /// Whether the reply was sent.
    Sent(bool),
}

/// The state of the handling of one triggering message.
pub struct Handler {
    /// The relation of the triggering message; every reply carries it.
    pub relation: ReplyRelation,
    pub stage: Stage,
    /// The display filename of the media, used only in the link.
    pub filename: String,
    /// The download URL of the media.
    pub url: String,
    /// The staging key of this operation.
    pub key: u64,
    /// The content address, once the upload succeeded.
    pub hash: String,
    /// Downloads tried so far.
    pub attempts: u64,
    /// Remote event fetches asked for so far.
    pub fetches: u64,
    /// Whether the upload succeeded, while the staged file is being removed.
    pub uploaded: bool,
}

/// Which outcome answers the action issued at each stage.
pub open spec fn answers(stage: Stage, o: Outcome) -> bool {
    match stage {
        Stage::Fetching => o is Fetched,
        Stage::Downloading => o is Downloaded,
        Stage::Staging => o is Written,
        Stage::Uploading => o is Uploaded,
        Stage::Removing => o is Removed,
        Stage::Pinning => o is Pinned,
        Stage::Replying => o is Sent,
        Stage::Done => false,
    }
}

/// Whether a staged file may exist on disk at this stage.
pub open spec fn holds_staged(stage: Stage) -> bool {
    stage == Stage::Staging || stage == Stage::Uploading || stage == Stage::Removing
}

/// A move between stages that never drops a staged file without removing it:
/// a stage that may hold one is left for one that does not only from `Removing`.
pub open spec fn keeps_cleanup(from: Stage, to: Stage) -> bool {
    holds_staged(from) && !holds_staged(to) ==> from == Stage::Removing
}

/// The handler replies `text` under its relation.
pub open spec fn replies(h: Handler, a: Action, text: Seq<char>) -> bool {
    h.stage == Stage::Replying && (a matches Action::SendReply { reply } && reply.body@ == text
        && reply.relates_to.in_reply_to@ == h.relation.in_reply_to@)
}

/// What the handler does with the event that the trigger replies to.
pub open spec fn handles_target(h: Handler, a: Action, c: MessageContent, s: Settings) -> bool {
    match extracted(c) {
        None => replies(h, a, unsupported_text()),
        Some((f, u, e)) => match parse_reference(u) {
            Err(_) => h.stage == Stage::Done && a is Finish,
            Ok((o, id)) => {
                let url = download_url_text(s.homeserver.scheme@, s.homeserver.authority@, o, id);
                h.stage == Stage::Downloading && h.attempts == 1 && h.filename@ == f && h.url@
                    == url && (a matches Action::Download { url: v } && v@ == url)
            },
        },
    }
}

/// What a step keeps: the relation replied to, the staging key and the fetch count.
pub open spec fn same_job(a: Handler, b: Handler) -> bool {
    a.relation.in_reply_to@ == b.relation.in_reply_to@ && a.key == b.key && a.fetches == b.fetches
}

/// A media message whose reference cannot be parsed ends the handling at
/// once: no download, nor any other network call, is asked for.
pub proof fn lemma_malformed_reference_ends(h: Handler, a: Action, c: MessageContent, s: Settings)
    requires
        handles_target(h, a, c, s),
        extracted(c) is Some,
        parse_reference(extracted(c).unwrap().1) is Err,
    ensures
        a is Finish,
        h.stage == Stage::Done,
{
}

/// Whatever the outcomes, handling that holds a staged file and is later done
/// went through removing it: in a run of stages whose every move is one that
/// `step` or `cancel` makes, some stage after the first is `Removing`.
pub proof fn lemma_staged_run_removes(stages: Seq<Stage>)
    requires
        stages.len() >= 2,
        holds_staged(stages[0]),
        stages.last() == Stage::Done,
        forall|i: int| 0 <= i < stages.len() - 1 ==> keeps_cleanup(#[trigger] stages[i], stages[i + 1]),
    ensures
        exists|i: int| 0 <= i < stages.len() && stages[i] == Stage::Removing,
    decreases stages.len(),
{
    if stages[0] == Stage::Removing {
        assert(stages[0] == Stage::Removing);
    } else {
        assert(keeps_cleanup(stages[0], stages[1]));
        if stages.len() == 2 {
            assert(false);
        } else {
            let rest = stages.subrange(1, stages.len() as int);
            assert forall|i: int| 0 <= i < rest.len() - 1 implies keeps_cleanup(#[trigger] rest[i], rest[i + 1]) by {
                assert(rest[i] == stages[i + 1]);
                assert(keeps_cleanup(stages[i + 1], stages[i + 2]));
            }
            lemma_staged_run_removes(rest);
            let j = choose|j: int| 0 <= j < rest.len() && rest[j] == Stage::Removing;
            assert(stages[j + 1] == Stage::Removing);
        }
    }
}

/// Handling never holds a staged file once it is done.
pub proof fn lemma_done_holds_nothing(h: Handler)
    requires
        h.stage == Stage::Done,
    ensures
        !holds_staged(h.stage),
{
}

impl Handler {
    pub open spec fn wf(&self, s: Settings) -> bool {
        &&& self.fetches <= 1
        &&& self.stage == Stage::Fetching ==> self.fetches == 1
        &&& self.stage == Stage::Downloading ==> 1 <= self.attempts <= s.max_attempts
    }

    /// The handler once the event replied to is known, from that event's content.
    fn on_target(relation: ReplyRelation, c: &MessageContent, s: &Settings, key: u64, fetches: u64) -> (r: (Handler, Action))
        requires
            s.wf(),
            fetches <= 1,
        ensures
            r.0.wf(*s),
            r.0.relation.in_reply_to@ == relation.in_reply_to@,
            r.0.key == key,
            r.0.fetches == fetches,
            handles_target(r.0, r.1, *c, *s),
    {
        let mut h = Handler {
            relation,
            stage: Stage::Done,
            filename: String::new(),
            url: String::new(),
            key,
            hash: String::new(),
            attempts: 0,
            fetches,
            uploaded: false,
        };
        match extract_media(c) {
            None => {
                h.stage = Stage::Replying;
                let reply = compose_reply(unsupported_body(), &h.relation);
                (h, Action::SendReply { reply })
            },
            Some(d) => match get_media_download_url(d.reference.as_str(), &s.homeserver) {
                Err(_) => (h, Action::Finish),
                Ok(url) => {
                    h.stage = Stage::Downloading;
                    h.attempts = 1;
                    h.filename = d.filename;
                    h.url = url.clone();
                    (h, Action::Download { url })
                },
            },
        }
    }

    /// Starts handling a triggering message that replies to `relation`: the
    /// target event is looked up in the room's cached timeline, and fetched
    /// from the server only when it is not there.
    pub fn start(relation: &ReplyRelation, cache: &Vec<TimelineEvent>, s: &Settings, key: u64) -> (r: (Handler, Action))
        requires
            s.wf(),
        ensures
            r.0.wf(*s),
            r.0.relation.in_reply_to@ == relation.in_reply_to@,
            r.0.key == key,
            !(r.1 is FetchEvent) ==> r.0.fetches == 0,
            is_cached(cache@, relation.in_reply_to@) ==> r.0.fetches == 0 && exists|i: int|
                0 <= i < cache@.len() && cache@[i].event_id@ == relation.in_reply_to@
                    && (forall|j: int| 0 <= j < i ==> cache@[j].event_id@ != relation.in_reply_to@)
                    && handles_target(r.0, r.1, cache@[i].content, *s),
            !is_cached(cache@, relation.in_reply_to@) ==> r.0.fetches == 1 && r.0.stage
                == Stage::Fetching && (r.1 matches Action::FetchEvent { event_id }
                && event_id@ == relation.in_reply_to@),
    {
        match find_cached(cache, &relation.in_reply_to) {
            Some(i) => Handler::on_target(ReplyRelation { in_reply_to: relation.in_reply_to.clone() }, &cache[i].content, s, key, 0),
            None => {
                let h = Handler {
                    relation: ReplyRelation { in_reply_to: relation.in_reply_to.clone() },
                    stage: Stage::Fetching,
                    filename: String::new(),
                    url: String::new(),
                    key,
                    hash: String::new(),
                    attempts: 0,
                    fetches: 1,
                    uploaded: false,
                };
                (h, Action::FetchEvent { event_id: relation.in_reply_to.clone() })
            },
        }
    }

    fn ask_removal(&mut self, uploaded: bool) -> (a: Action)
        ensures
            *final(self) == (Handler { stage: Stage::Removing, uploaded, ..*old(self) }),
            a == (Action::RemoveStaged { key: old(self).key }),
    {
        self.stage = Stage::Removing;
        self.uploaded = uploaded;
        Action::RemoveStaged { key: self.key }
    }

    fn finish(&mut self) -> (a: Action)
        ensures
            *final(self) == (Handler { stage: Stage::Done, ..*old(self) }),
            a is Finish,
    {
        self.stage = Stage::Done;
        Action::Finish
    }

    /// Takes what came of the last action and decides the next one.
    pub fn step(&mut self, outcome: Outcome, s: &Settings) -> (a: Action)
        requires
            s.wf(),
            old(self).wf(*s),
            answers(old(self).stage, outcome),
        ensures
            final(self).wf(*s),
            same_job(*old(self), *final(self)),
            !(a is FetchEvent),
            a is Finish ==> final(self).stage == Stage::Done,
            final(self).stage == Stage::Done ==> a is Finish,
            keeps_cleanup(old(self).stage, final(self).stage),
            old(self).stage == Stage::Fetching ==> match outcome {
                Outcome::Fetched(Some(ev)) => handles_target(*final(self), a, ev.content, *s),
                _ => replies(*final(self), a, unresolved_text()),
            },
            old(self).stage == Stage::Downloading ==> match outcome {
                Outcome::Downloaded(Some(len)) => if len <= s.max_payload {
                    final(self).stage == Stage::Staging && a == (Action::WriteStaged {
                        key: old(self).key,
                    })
                } else {
                    final(self).stage == Stage::Done
                },
                _ => if old(self).attempts < s.max_attempts {
                    final(self).stage == Stage::Downloading && final(self).attempts == old(
                        self,
                    ).attempts + 1 && (a matches Action::Download { url } && url@ == old(
                        self,
                    ).url@)
                } else {
                    final(self).stage == Stage::Done
                },
            },
            old(self).stage == Stage::Staging ==> match outcome {
                Outcome::Written(true) => final(self).stage == Stage::Uploading && a == (
                Action::Upload { key: old(self).key }),
                _ => final(self).stage == Stage::Removing && !final(self).uploaded && a == (
                Action::RemoveStaged { key: old(self).key }),
            },
            old(self).stage == Stage::Uploading ==> match outcome {
                Outcome::Uploaded(Some(h)) => final(self).stage == Stage::Removing
                    && final(self).uploaded && final(self).hash@ == h@ && a == (
                Action::RemoveStaged { key: old(self).key }),
                _ => final(self).stage == Stage::Removing && !final(self).uploaded && a == (
                Action::RemoveStaged { key: old(self).key }),
            },
            old(self).stage == Stage::Removing ==> if old(self).uploaded {
                final(self).stage == Stage::Pinning && (a matches Action::Pin { hash } && hash@
                    == old(self).hash@)
            } else {
                final(self).stage == Stage::Done
            },
            old(self).stage == Stage::Pinning ==> replies(
                *final(self),
                a,
                link_text(s.gateway@, old(self).hash@, old(self).filename@),
            ),
            old(self).stage == Stage::Replying ==> final(self).stage == Stage::Done,
    {
        match outcome {
            Outcome::Fetched(fetched) => match fetched {
                Some(ev) => {
                    let relation = ReplyRelation { in_reply_to: self.relation.in_reply_to.clone() };
                    let (h, a) = Handler::on_target(relation, &ev.content, s, self.key, self.fetches);
                    *self = h;
                    a
                },
                None => {
                    self.stage = Stage::Replying;
                    let reply = compose_reply(unresolved_body(), &self.relation);
                    Action::SendReply { reply }
                },
            },
            Outcome::Downloaded(got) => match got {
                Some(len) => {
                    if fits_payload(len, s.max_payload) {
                        self.stage = Stage::Staging;
                        Action::WriteStaged { key: self.key }
                    } else {
                        self.finish()
                    }
                },
                None => {
                    if self.attempts < s.max_attempts {
                        self.attempts = self.attempts + 1;
                        Action::Download { url: self.url.clone() }
                    } else {
                        self.finish()
                    }
                },
            },
            Outcome::Written(ok) => {
                if ok {
                    self.stage = Stage::Uploading;
                    Action::Upload { key: self.key }
                } else {
                    self.ask_removal(false)
                }
            },
            Outcome::Uploaded(res) => match res {
                Some(h) => {
                    self.hash = h;
                    self.ask_removal(true)
                },
                None => self.ask_removal(false),
            },
            Outcome::Removed => {
                if self.uploaded {
                    self.stage = Stage::Pinning;
                    Action::Pin { hash: self.hash.clone() }
                } else {
                    self.finish()
                }
            },
            Outcome::Pinned(_) => {
                self.stage = Stage::Replying;
                let body = link_body(s.gateway.as_str(), self.hash.as_str(), self.filename.as_str());
                let reply = compose_reply(body, &self.relation);
                Action::SendReply { reply }
            },
            Outcome::Sent(_) => self.finish(),
        }
    }

    /// Stops the handling early, on a timeout or a cancellation: a staged file
    /// that may exist is removed first.
    pub fn cancel(&mut self) -> (a: Action)
        requires
            old(self).stage != Stage::Removing,
        ensures
            same_job(*old(self), *final(self)),
            keeps_cleanup(old(self).stage, final(self).stage),
            holds_staged(old(self).stage) ==> final(self).stage == Stage::Removing
                && !final(self).uploaded && a == (Action::RemoveStaged { key: old(self).key }),
            !holds_staged(old(self).stage) ==> final(self).stage == Stage::Done && a is Finish,
    {
        if self.stage == Stage::Staging || self.stage == Stage::Uploading {
            self.ask_removal(false)
        } else {
            self.finish()
        }
    }
}

} // verus!
