use workbook::blog::handle_approve;
use workbook::blog::handle_request_review;
use workbook::blog::Post;
use workbook::blog::ReviewState;

#[test]
fn full_workflow_publishes_content() {
    let mut post = Post::new();

    post.add_text("I ate a salad for lunch today");
    assert_eq!("", post.content());

    post.request_review();
    assert_eq!("", post.content());

    post.approve();
    assert_eq!("I ate a salad for lunch today", post.content());
}

#[test]
fn content_is_concatenation_in_call_order() {
    let mut post = Post::new();
    post.add_text("I ate a salad");
    post.add_text(" for lunch");
    post.add_text(" today");
    post.request_review();
    post.approve();
    assert_eq!("I ate a salad for lunch today", post.content());
}

#[test]
fn content_hidden_before_publication() {
    let mut post = Post::new();
    assert_eq!("", post.content());
    post.add_text("quite a lot of text, none of it visible yet");
    post.add_text(" and some more");
    assert_eq!("", post.content());
    post.request_review();
    assert_eq!("", post.content());
}

#[test]
fn approve_alone_never_publishes_a_draft() {
    let mut post = Post::new();
    post.add_text("secret draft");
    post.approve();
    post.approve();
    post.approve();
    assert_eq!(ReviewState::Draft, post.state());
    assert_eq!("", post.content());
}

#[test]
fn request_review_is_idempotent_once_pending() {
    let mut post = Post::new();
    post.request_review();
    assert_eq!(ReviewState::PendingReview, post.state());
    post.request_review();
    assert_eq!(ReviewState::PendingReview, post.state());
}

#[test]
fn published_absorbs_further_requests() {
    let mut post = Post::new();
    post.add_text("done");
    post.request_review();
    post.approve();
    assert_eq!(ReviewState::Published, post.state());
    post.approve();
    assert_eq!(ReviewState::Published, post.state());
    post.request_review();
    assert_eq!(ReviewState::Published, post.state());
    assert_eq!("done", post.content());
}

#[test]
fn text_added_after_publication_is_kept_and_shown() {
    let mut post = Post::new();
    post.add_text("first");
    post.request_review();
    post.approve();
    post.add_text(" second");
    assert_eq!(ReviewState::Published, post.state());
    assert_eq!("first second", post.content());
}

#[test]
fn transition_tables_match_the_design() {
    assert_eq!(ReviewState::PendingReview, handle_request_review(ReviewState::Draft));
    assert_eq!(ReviewState::PendingReview, handle_request_review(ReviewState::PendingReview));
    assert_eq!(ReviewState::Published, handle_request_review(ReviewState::Published));

    assert_eq!(ReviewState::Draft, handle_approve(ReviewState::Draft));
    assert_eq!(ReviewState::Published, handle_approve(ReviewState::PendingReview));
    assert_eq!(ReviewState::Published, handle_approve(ReviewState::Published));
}

#[test]
fn new_post_is_an_empty_draft() {
    let post = Post::new();
    assert_eq!(ReviewState::Draft, post.state());
    assert_eq!("", post.content());
}
