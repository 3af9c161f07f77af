//! The document review workflow.
//!
//! A [`Post`] starts as a draft, collects text through [`Post::add_text`],
//! and moves through the review states by [`Post::request_review`] and
//! [`Post::approve`]. Every transition is total: a request that does not
//! apply in the current state leaves the state unchanged rather than
//! failing. Only a published post shows its text; in every other state
//! [`Post::content`] returns the empty string.

use vstd::prelude::*;
use vstd::string::StringExecFns;

verus! {

/// The review state of a post. A post starts in `Draft`, moves to
/// `PendingReview` once a review is requested, and to `Published` once the
/// pending review is approved. `Published` is terminal: no transition leaves
/// it.
#[derive(Clone, Copy, Debug, PartialEq, Eq, Structural)]
pub enum ReviewState {
    Draft,
    PendingReview,
    Published,
}

/// The state that a request for review leads to: a draft becomes pending,
/// anything else is left as it is.
pub open spec fn next_after_request_review(s: ReviewState) -> ReviewState {
    match s {
        ReviewState::Draft => ReviewState::PendingReview,
        ReviewState::PendingReview => ReviewState::PendingReview,
        ReviewState::Published => ReviewState::Published,
    }
}

/// The state that an approval leads to: a pending post becomes published,
/// anything else is left as it is. In particular a draft can never be
/// published directly.
pub open spec fn next_after_approve(s: ReviewState) -> ReviewState {
    match s {
        ReviewState::Draft => ReviewState::Draft,
        ReviewState::PendingReview => ReviewState::Published,
        ReviewState::Published => ReviewState::Published,
    }
}

/// What a reader of a post in state `s` sees of its accumulated text:
/// everything once published, nothing before.
pub open spec fn visible_content(s: ReviewState, text: Seq<char>) -> Seq<char> {
    if s is Published {
        text
    } else {
        Seq::empty()
    }
}

/// The transition table for a review request, as an executable function on
/// states.
pub fn handle_request_review(s: ReviewState) -> (t: ReviewState)
    ensures
        t == next_after_request_review(s),
{
    match s {
        ReviewState::Draft => ReviewState::PendingReview,
        ReviewState::PendingReview => ReviewState::PendingReview,
        ReviewState::Published => ReviewState::Published,
    }
}

/// The transition table for an approval, as an executable function on
/// states.
pub fn handle_approve(s: ReviewState) -> (t: ReviewState)
    ensures
        t == next_after_approve(s),
{
    match s {
        ReviewState::Draft => ReviewState::Draft,
        ReviewState::PendingReview => ReviewState::Published,
        ReviewState::Published => ReviewState::Published,
    }
}

/// A document under review: accumulated text plus the current review state.
/// The text is append-only, and whether it is visible depends only on the
/// current state.
pub struct Post {
    content: String,
    state: ReviewState,
    texts: Ghost<Seq<Seq<char>>>,
}

impl Post {
    /// The review state the post is currently in.
    pub closed spec fn spec_state(self) -> ReviewState {
        self.state
    }

    /// Every piece of text handed to `add_text`, in call order.
    pub closed spec fn texts(self) -> Seq<Seq<char>> {
        self.texts@
    }

    /// The accumulated text of the post.
    pub closed spec fn text(self) -> Seq<char> {
        self.content@
    }

    /// The accumulated text is exactly the concatenation of the added
    /// pieces, in call order. Established by `new` and preserved by every
    /// method.
    pub open spec fn wf(self) -> bool {
        self.text() == self.texts().flatten()
    }

    /// A fresh post: empty text, in `Draft`.
    pub fn new() -> (post: Post)
        ensures
            post.wf(),
            post.spec_state() == ReviewState::Draft,
            post.texts() == Seq::<Seq<char>>::empty(),
            post.text() == Seq::<char>::empty(),
    {
        let post = Post {
            content: String::new(),
            state: ReviewState::Draft,
            texts: Ghost(Seq::empty()),
        };
        proof {
            assert(post.texts@.flatten() =~= Seq::<char>::empty());
        }
        post
    }

    /// Appends `text` to the post. Allowed in every state, including
    /// `Published`; the state is never changed by this call.
    pub fn add_text(&mut self, text: &str)
        requires
            old(self).wf(),
        ensures
            final(self).wf(),
            final(self).spec_state() == old(self).spec_state(),
            final(self).texts() == old(self).texts().push(text@),
            final(self).text() == old(self).text() + text@,
            old(self).text().is_prefix_of(final(self).text()),
    {
        self.content.append(text);
        proof {
            self.texts@ = self.texts@.push(text@);
            old(self).texts@.lemma_flatten_push(text@);
            assert(old(self).text().is_prefix_of(self.text())) by {
                assert(self.text().subrange(0, old(self).text().len() as int)
                    =~= old(self).text());
            }
        }
    }

    /// Asks for a review: the state follows the transition table, the text
    /// is untouched. Never fails; in states where the request does not
    /// apply it is silently absorbed.
    pub fn request_review(&mut self)
        requires
            old(self).wf(),
        ensures
            final(self).wf(),
            final(self).spec_state() == next_after_request_review(old(self).spec_state()),
            final(self).text() == old(self).text(),
            final(self).texts() == old(self).texts(),
    {
        self.state = handle_request_review(self.state);
    }

    /// Approves the post: the state follows the transition table, the text
    /// is untouched. Never fails; in states where the approval does not
    /// apply it is silently absorbed.
    pub fn approve(&mut self)
        requires
            old(self).wf(),
        ensures
            final(self).wf(),
            final(self).spec_state() == next_after_approve(old(self).spec_state()),
            final(self).text() == old(self).text(),
            final(self).texts() == old(self).texts(),
    {
        self.state = handle_approve(self.state);
    }

    /// The visible text: the full accumulated text once published — exactly
    /// the concatenation of everything passed to `add_text`, in call order —
    /// and the empty string in every other state.
    pub fn content(&self) -> (r: &str)
        requires
            self.wf(),
        ensures
            r@ == visible_content(self.spec_state(), self.text()),
            self.spec_state() is Published ==> r@ == self.texts().flatten(),
            !(self.spec_state() is Published) ==> r@ == Seq::<char>::empty(),
    {
        match self.state {
            ReviewState::Published => self.content.as_str(),
            _ => {
                let empty = "";
                proof {
                    reveal_strlit("");
                    assert(empty@ =~= Seq::<char>::empty());
                }
                empty
            },
        }
    }

    /// The current review state, for callers that want to observe the
    /// workflow.
    pub fn state(&self) -> (s: ReviewState)
        ensures
            s == self.spec_state(),
    {
        self.state
    }
}

/// `n` approvals in a row starting from state `s`.
pub open spec fn iter_approve(s: ReviewState, n: nat) -> ReviewState
    decreases n,
{
    if n == 0 {
        s
    } else {
        next_after_approve(iter_approve(s, (n - 1) as nat))
    }
}

/// Approving a draft never publishes it: any number of approvals without a
/// review request leaves the post in `Draft`.
pub proof fn lemma_draft_approve_only_stays_draft(n: nat)
    ensures
        iter_approve(ReviewState::Draft, n) == ReviewState::Draft,
    decreases n,
{
    if n > 0 {
        lemma_draft_approve_only_stays_draft((n - 1) as nat);
    }
}

/// Requesting a review moves a draft to `PendingReview`, and requesting it
/// again while pending changes nothing.
pub proof fn lemma_request_review_from_draft()
    ensures
        next_after_request_review(ReviewState::Draft) == ReviewState::PendingReview,
        next_after_request_review(ReviewState::PendingReview) == ReviewState::PendingReview,
{
}

/// Approving a pending post publishes it, `Published` absorbs every later
/// request, and a published post shows its full text.
pub proof fn lemma_pending_approve_publishes(text: Seq<char>)
    ensures
        next_after_approve(ReviewState::PendingReview) == ReviewState::Published,
        next_after_approve(ReviewState::Published) == ReviewState::Published,
        next_after_request_review(ReviewState::Published) == ReviewState::Published,
        visible_content(ReviewState::Published, text) == text,
{
}

/// Before publication nothing is visible: in any state other than
/// `Published` the visible content is empty, however much text was added.
pub proof fn lemma_hidden_until_published(s: ReviewState, text: Seq<char>)
    requires
        s != ReviewState::Published,
    ensures
        visible_content(s, text) == Seq::<char>::empty(),
{
}

} // verus!
