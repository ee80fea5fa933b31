use vstd::prelude::*;
use vstd::string::*;
use crate::posts::Post;
use crate::text::{spec_decimal, u64_to_string};

verus! {

/// Page number shown to the operator for a listing request at `offset`,
/// counting pages of `page_size` records from one.
pub open spec fn spec_page_number(offset: u64, page_size: u64) -> int
    recommends
        page_size > 0,
{
    (offset as int + page_size as int) / (page_size as int)
}

/// Where one pagination run stands.
#[derive(Clone, Copy, PartialEq, Eq, Structural, Debug)]
pub enum PagePhase {
    /// A request at the current offset is owed an answer.
    Pending,
    /// The run ended: the first empty page arrived, or the single wanted
    /// page did.
    Done,
    /// A non-retryable status ended the run.
    Failed,
}

/// The pagination state machine for one listing: a creator's posts, or one
/// discord channel's messages. The caller issues the network request the
/// current state asks for and hands the answer back in; every decision the
/// retry protocol takes is made here.
///
/// Single-page runs (a page-offset or specific-post target) finish after
/// their first successful response; full runs advance the offset by the
/// page size after every non-empty page and finish on the first empty one.
pub struct Paginator {
    /// Records per page of the service behind the listing.
    pub page_size: u64,
    /// Offset the next request must carry.
    pub offset: u64,
    /// Whether one successful response finishes the run.
    pub single_page: bool,
    /// The records accumulated so far, in arrival order.
    pub posts: Vec<Post>,
    /// How many requests have been answered.
    pub requests: u64,
    /// How many rate-limit backoffs the run has slept.
    pub backoffs: u64,
    /// Where the run stands.
    pub phase: PagePhase,
}

impl Paginator {
    /// A fresh run over pages of `page_size` records, starting at
    /// `start_offset`.
    pub fn new(page_size: u64, start_offset: u64, single_page: bool) -> (r: Paginator)
        requires
            page_size > 0,
        ensures
            r.page_size == page_size,
            r.offset == start_offset,
            r.single_page == single_page,
            r.posts@.len() == 0,
            r.requests == 0,
            r.backoffs == 0,
            r.phase == PagePhase::Pending,
    {
        Paginator {
            page_size,
            offset: start_offset,
            single_page,
            posts: Vec::new(),
            requests: 0,
            backoffs: 0,
            phase: PagePhase::Pending,
        }
    }

    /// The one-based page number of the pending request, for status display.
    pub fn page_number(&self) -> (n: u64)
        requires
            self.page_size > 0,
            self.offset + self.page_size <= u64::MAX,
        ensures
            n == spec_page_number(self.offset, self.page_size),
    {
        (self.offset + self.page_size) / self.page_size
    }

    /// Feeds in the page of records a successful response carried.
    ///
    /// The records are appended. A full run advances the offset by one page
    /// size exactly when the page was non-empty, and ends on the first
    /// empty page; a single-page run ends here whatever the page held.
    pub fn on_page(&mut self, posts: Vec<Post>)
        requires
            old(self).phase == PagePhase::Pending,
            old(self).offset + old(self).page_size <= u64::MAX,
            old(self).requests < u64::MAX,
        ensures
            final(self).posts@ == old(self).posts@ + posts@,
            final(self).requests == old(self).requests + 1,
            final(self).phase == (if posts@.len() == 0 || old(self).single_page {
                PagePhase::Done
            } else {
                PagePhase::Pending
            }),
            final(self).offset == (if posts@.len() > 0 && !old(self).single_page {
                old(self).offset + old(self).page_size
            } else {
                old(self).offset as int
            }),
            final(self).backoffs == old(self).backoffs,
            final(self).page_size == old(self).page_size,
            final(self).single_page == old(self).single_page,
    {
        let mut posts = posts;
        self.requests = self.requests + 1;
        let empty = posts.len() == 0;
        self.posts.append(&mut posts);
        if empty || self.single_page {
            self.phase = PagePhase::Done;
        } else {
            self.offset = self.offset + self.page_size;
        }
    }

    /// Feeds in a non-success status. Returns whether the identical request
    /// must be retried after a rate-limit backoff, which holds exactly for
    /// a too-many-requests status; any other status fails the run.
    pub fn on_status(&mut self, status: u16) -> (retry: bool)
        requires
            old(self).phase == PagePhase::Pending,
            old(self).requests < u64::MAX,
            old(self).backoffs < u64::MAX,
        ensures
            retry == (status == 429),
            final(self).requests == old(self).requests + 1,
            final(self).backoffs == (if status == 429 {
                old(self).backoffs + 1
            } else {
                old(self).backoffs as int
            }),
            final(self).phase == (if status == 429 {
                PagePhase::Pending
            } else {
                PagePhase::Failed
            }),
            final(self).posts@ == old(self).posts@,
            final(self).offset == old(self).offset,
            final(self).page_size == old(self).page_size,
            final(self).single_page == old(self).single_page,
    {
        self.requests = self.requests + 1;
        if status == 429 {
            self.backoffs = self.backoffs + 1;
            true
        } else {
            self.phase = PagePhase::Failed;
            false
        }
    }
}

/// The channels a discord target covers: the explicitly named one alone,
/// or the whole looked-up list of the server's channels.
pub fn resolve_channels(explicit: Option<String>, looked_up: Vec<String>) -> (r: Vec<String>)
    ensures
        match explicit {
            Some(c) => r@ =~= seq![c],
            None => r@ == looked_up@,
        },
{
    match explicit {
        Some(c) => {
            let mut r: Vec<String> = Vec::new();
            r.push(c);
            r
        },
        None => looked_up,
    }
}

/// The channel-lookup API URL for a discord server.
pub open spec fn spec_discord_lookup_url(server: Seq<char>) -> Seq<char> {
    "https://kemono.su/api/v1/discord/channel/lookup/"@ + server
}

/// Builds the channel-lookup API URL for a discord server.
pub fn discord_lookup_url(server: &str) -> (r: String)
    ensures
        r@ == spec_discord_lookup_url(server@),
{
    let mut r = String::from_str("https://kemono.su/api/v1/discord/channel/lookup/");
    r.append(server);
    r
}

/// The channel listing API URL for a discord channel at `offset`.
pub open spec fn spec_discord_channel_url(channel: Seq<char>, offset: nat) -> Seq<char> {
    "https://kemono.su/api/v1/discord/channel/"@ + channel + "?o="@ + spec_decimal(offset)
}

/// Builds the channel listing API URL for a discord channel at `offset`.
pub fn discord_channel_url(channel: &str, offset: u64) -> (r: String)
    ensures
        r@ == spec_discord_channel_url(channel@, offset as nat),
{
    let mut r = String::from_str("https://kemono.su/api/v1/discord/channel/");
    r.append(channel);
    r.append("?o=");
    let off = u64_to_string(offset);
    r.append(off.as_str());
    r
}

/// The sub-resource identity shown while paging a discord channel:
/// `discord/<server>/<channel>`.
pub open spec fn spec_discord_channel_label(server: Seq<char>, channel: Seq<char>) -> Seq<char> {
    "discord/"@ + server + "/"@ + channel
}

/// Builds the sub-resource identity shown while paging a discord channel.
pub fn discord_channel_label(server: &str, channel: &str) -> (r: String)
    ensures
        r@ == spec_discord_channel_label(server@, channel@),
{
    let mut r = String::from_str("discord/");
    r.append(server);
    r.append("/");
    r.append(channel);
    r
}

/// The status line emitted to the sink before each page request.
pub open spec fn spec_page_message(label: Seq<char>, page: nat) -> Seq<char> {
    "Retrieving posts for "@ + label + " page #"@ + spec_decimal(page)
}

/// Builds the status line emitted to the sink before each page request.
pub fn page_message(label: &str, page: u64) -> (r: String)
    ensures
        r@ == spec_page_message(label@, page as nat),
{
    let mut r = String::from_str("Retrieving posts for ");
    r.append(label);
    r.append(" page #");
    let p = u64_to_string(page);
    r.append(p.as_str());
    r
}

} // verus!
