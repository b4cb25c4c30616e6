//! The interactive browser as a state machine: a key or the outcome of an S3
//! request goes in; the next state and the next thing to do come out. The
//! caller draws the state, reads keys, and performs the requests.

use vstd::prelude::*;
use vstd::string::*;

use crate::commands::ls::{names_view, opt_view};
use crate::text::{join2, join3, join4, join5, join6};

verus! {

/// A key as the browser tells keys apart.
#[derive(Clone, Copy, Debug, PartialEq, Eq)]
pub enum Key {
    Char(char),
    Up,
    Down,
    Enter,
    Esc,
    Backspace,
    Delete,
    Other,
}

/// What the list shows: the buckets, or the objects of one bucket.
#[derive(Clone, Debug, PartialEq, Eq)]
pub enum Screen<S> {
    Buckets,
    Objects { bucket: S },
}

/// The object marked for copying, and its bucket.
#[derive(Clone, Debug, PartialEq, Eq)]
pub struct CurrentSelection<S> {
    pub bucket: Option<S>,
    pub object: Option<S>,
}

/// A request to S3 that the caller performs.
#[derive(Clone, Debug, PartialEq, Eq)]
pub enum Request<S> {
    ListBuckets,
    ListObjects { bucket: S },
    CopyObject { source_bucket: S, source_key: S, dest_bucket: S, dest_key: S },
    DeleteObject { bucket: S, key: S },
    DeleteBucket { bucket: S },
}

/// What the caller does next.
#[derive(Clone, Debug, PartialEq, Eq)]
pub enum Step<S> {
    /// Draw the state and wait for a key.
    Idle,
    /// Leave the browser.
    Quit,
    /// Perform the request and hand its outcome back.
    Call(Request<S>),
}

/// What the outcome of the request in flight is for.
pub enum Awaiting<S> {
    /// No request is in flight.
    Nothing,
    /// A listing of the buckets, to be shown as the bucket screen.
    Buckets,
    /// A listing of a bucket's objects, to be shown as that bucket's screen.
    Objects { bucket: S },
    /// A listing that replaces the items of the current screen.
    Reload,
    /// A copy of `source_key` to `dest_key` in `dest_bucket`.
    Copy { source_key: S, dest_key: S, dest_bucket: S },
    /// The removal of an object.
    ObjectDeletion { bucket: S, key: S },
    /// The removal of a bucket.
    BucketDeletion { bucket: S },
}

/// The state of the browser.
pub struct App {
    items: Vec<String>,
    selected: Option<usize>,
    status: String,
    screen: Screen<String>,
    current_selection: CurrentSelection<String>,
    awaiting: Awaiting<String>,
}

/// The state of the browser as values.
#[verifier::ext_equal]
pub struct AppModel {
    pub items: Seq<Seq<char>>,
    pub selected: Option<usize>,
    pub status: Seq<char>,
    pub screen: Screen<Seq<char>>,
    pub current_selection: CurrentSelection<Seq<char>>,
    pub awaiting: Awaiting<Seq<char>>,
}

/// The values of a screen.
pub open spec fn screen_view(s: Screen<String>) -> Screen<Seq<char>> {
    match s {
        Screen::Buckets => Screen::Buckets,
        Screen::Objects { bucket } => Screen::Objects { bucket: bucket@ },
    }
}

/// The values of a marked object.
pub open spec fn selection_view(s: CurrentSelection<String>) -> CurrentSelection<Seq<char>> {
    CurrentSelection { bucket: opt_view(s.bucket), object: opt_view(s.object) }
}

/// The values of a request.
pub open spec fn request_view(r: Request<String>) -> Request<Seq<char>> {
    match r {
        Request::ListBuckets => Request::ListBuckets,
        Request::ListObjects { bucket } => Request::ListObjects { bucket: bucket@ },
        Request::CopyObject { source_bucket, source_key, dest_bucket, dest_key } => Request::CopyObject {
            source_bucket: source_bucket@,
            source_key: source_key@,
            dest_bucket: dest_bucket@,
            dest_key: dest_key@,
        },
        Request::DeleteObject { bucket, key } => Request::DeleteObject { bucket: bucket@, key: key@ },
        Request::DeleteBucket { bucket } => Request::DeleteBucket { bucket: bucket@ },
    }
}

/// The values of a step.
pub open spec fn step_view(s: Step<String>) -> Step<Seq<char>> {
    match s {
        Step::Idle => Step::Idle,
        Step::Quit => Step::Quit,
        Step::Call(r) => Step::Call(request_view(r)),
    }
}

/// The values of what the request in flight is for.
pub open spec fn awaiting_view(a: Awaiting<String>) -> Awaiting<Seq<char>> {
    match a {
        Awaiting::Nothing => Awaiting::Nothing,
        Awaiting::Buckets => Awaiting::Buckets,
        Awaiting::Objects { bucket } => Awaiting::Objects { bucket: bucket@ },
        Awaiting::Reload => Awaiting::Reload,
        Awaiting::Copy { source_key, dest_key, dest_bucket } => Awaiting::Copy {
            source_key: source_key@,
            dest_key: dest_key@,
            dest_bucket: dest_bucket@,
        },
        Awaiting::ObjectDeletion { bucket, key } => Awaiting::ObjectDeletion { bucket: bucket@, key: key@ },
        Awaiting::BucketDeletion { bucket } => Awaiting::BucketDeletion { bucket: bucket@ },
    }
}

/// The values of the outcome of a listing.
pub open spec fn listing_view(r: Result<Vec<String>, String>) -> Result<Seq<Seq<char>>, Seq<char>> {
    match r {
        Ok(v) => Ok(names_view(v@)),
        Err(e) => Err(e@),
    }
}

/// The values of the outcome of a copy or a removal.
pub open spec fn completion_view(r: Result<(), String>) -> Result<(), Seq<char>> {
    match r {
        Ok(()) => Ok(()),
        Err(e) => Err(e@),
    }
}

impl AppModel {
    /// A selection points into the list, or is the first place of an empty
    /// list; a marked object has a bucket.
    pub open spec fn wf(self) -> bool {
        &&& self.selected matches Some(i) ==> i < self.items.len() || i == 0
        &&& self.current_selection.object is Some ==> self.current_selection.bucket is Some
    }
}

/// The selection after the list was filled: the first item, if any.
pub open spec fn first_selection(n: nat) -> Option<usize> {
    if n == 0 {
        None
    } else {
        Some(0)
    }
}

/// The keys that stop the browser with a panic: moving down, or marking or
/// removing the selected item, while an empty list has a selection.
pub open spec fn key_panics(m: AppModel, key: Key) -> bool {
    let empty_with_selection = m.selected is Some && m.items.len() == 0;
    match key {
        Key::Down => empty_with_selection,
        Key::Delete => empty_with_selection,
        Key::Char(c) => (c == 'd' || (c == 'c' && m.screen is Objects)) && empty_with_selection,
        _ => false,
    }
}

/// The selection after `Down`: the next item, or the first after the last.
pub open spec fn index_below(m: AppModel) -> usize {
    match m.selected {
        Some(i) => if i >= m.items.len() - 1 {
            0
        } else {
            (i + 1) as usize
        },
        None => 0,
    }
}

/// The selection after `Up`: the previous item, or the last before the first.
pub open spec fn index_above(m: AppModel) -> usize {
    match m.selected {
        Some(i) => if m.items.len() == 0 {
            0
        } else if i == 0 {
            (m.items.len() - 1) as usize
        } else {
            (i - 1) as usize
        },
        None => 0,
    }
}

/// `Enter`: on a bucket, ask for its objects; on an object, say which it is.
pub open spec fn after_enter(m: AppModel) -> (AppModel, Step<Seq<char>>) {
    match m.selected {
        None => (m, Step::Idle),
        Some(i) => if m.items.len() == 0 {
            (m, Step::Idle)
        } else {
            let selected = m.items[i as int];
            match m.screen {
                Screen::Buckets => (
                    AppModel {
                        status: "Loading objects for "@ + selected + "..."@,
                        awaiting: Awaiting::Objects { bucket: selected },
                        ..m
                    },
                    Step::Call(Request::ListObjects { bucket: selected }),
                ),
                Screen::Objects { bucket } => (
                    AppModel { status: "Selected object "@ + selected + " in "@ + bucket, ..m },
                    Step::Idle,
                ),
            }
        },
    }
}

/// `Esc` or `Backspace`: from a bucket's objects, back to the buckets.
pub open spec fn after_back(m: AppModel) -> (AppModel, Step<Seq<char>>) {
    match m.screen {
        Screen::Objects { .. } => (
            AppModel { status: "Loading buckets..."@, awaiting: Awaiting::Buckets, ..m },
            Step::Call(Request::ListBuckets),
        ),
        Screen::Buckets => (m, Step::Idle),
    }
}

/// `r`: list the current screen again.
pub open spec fn after_refresh(m: AppModel) -> (AppModel, Step<Seq<char>>) {
    match m.screen {
        Screen::Objects { bucket } => (
            AppModel {
                status: "Refreshing objects in bucket "@ + bucket + "..."@,
                awaiting: Awaiting::Objects { bucket },
                ..m
            },
            Step::Call(Request::ListObjects { bucket }),
        ),
        Screen::Buckets => (
            AppModel { status: "Refreshing buckets..."@, awaiting: Awaiting::Buckets, ..m },
            Step::Call(Request::ListBuckets),
        ),
    }
}

/// `c`: mark the selected object, with its bucket, for copying.
pub open spec fn after_mark(m: AppModel) -> (AppModel, Step<Seq<char>>) {
    match m.screen {
        Screen::Objects { bucket } => match m.selected {
            Some(i) => (
                AppModel {
                    current_selection: CurrentSelection {
                        bucket: Some(bucket),
                        object: Some(m.items[i as int]),
                    },
                    ..m
                },
                Step::Idle,
            ),
            None => (m, Step::Idle),
        },
        Screen::Buckets => (m, Step::Idle),
    }
}

/// The key under which a pasted object is stored.
pub open spec fn copy_key(key: Seq<char>) -> Seq<char> {
    key + "_copy"@
}

/// `p`: copy the marked object into the bucket on screen, under its key
/// followed by `_copy`.
pub open spec fn after_paste(m: AppModel) -> (AppModel, Step<Seq<char>>) {
    match (m.current_selection.object, m.screen) {
        (Some(source_key), Screen::Objects { bucket: dest_bucket }) => {
            let source_bucket = m.current_selection.bucket->Some_0;
            let dest_key = copy_key(source_key);
            (
                AppModel {
                    status: "Copying object "@ + source_key + " from bucket "@ + source_bucket
                        + "..."@,
                    awaiting: Awaiting::Copy { source_key, dest_key, dest_bucket },
                    ..m
                },
                Step::Call(Request::CopyObject { source_bucket, source_key, dest_bucket, dest_key }),
            )
        },
        _ => (m, Step::Idle),
    }
}

/// `d` or `Delete`: remove the selected object, or the selected bucket.
pub open spec fn after_delete(m: AppModel) -> (AppModel, Step<Seq<char>>) {
    match m.selected {
        None => (m, Step::Idle),
        Some(i) => {
            let name = m.items[i as int];
            match m.screen {
                Screen::Objects { bucket } => (
                    AppModel {
                        status: "Deleting object "@ + name + " from bucket "@ + bucket + "..."@,
                        awaiting: Awaiting::ObjectDeletion { bucket, key: name },
                        ..m
                    },
                    Step::Call(Request::DeleteObject { bucket, key: name }),
                ),
                Screen::Buckets => (
                    AppModel {
                        status: "Deleting bucket "@ + name + "..."@,
                        awaiting: Awaiting::BucketDeletion { bucket: name },
                        ..m
                    },
                    Step::Call(Request::DeleteBucket { bucket: name }),
                ),
            }
        },
    }
}

/// What a key does to the state, and what comes next.
pub open spec fn after_key(m: AppModel, key: Key) -> (AppModel, Step<Seq<char>>) {
    match key {
        Key::Char(c) => if c == 'q' {
            (m, Step::Quit)
        } else if c == 'r' {
            after_refresh(m)
        } else if c == 'c' {
            after_mark(m)
        } else if c == 'p' {
            after_paste(m)
        } else if c == 'd' {
            after_delete(m)
        } else {
            (m, Step::Idle)
        },
        Key::Down => (AppModel { selected: Some(index_below(m)), ..m }, Step::Idle),
        Key::Up => (AppModel { selected: Some(index_above(m)), ..m }, Step::Idle),
        Key::Enter => after_enter(m),
        Key::Esc => after_back(m),
        Key::Backspace => after_back(m),
        Key::Delete => after_delete(m),
        Key::Other => (m, Step::Idle),
    }
}

/// The status after a request failed.
pub open spec fn error_status(e: Seq<char>) -> Seq<char> {
    "Error: "@ + e
}

/// What the outcome of a listing does to the state.
pub open spec fn after_listing(m: AppModel, r: Result<Seq<Seq<char>>, Seq<char>>) -> (AppModel, Step<Seq<char>>) {
    match m.awaiting {
        Awaiting::Buckets => match r {
            Ok(names) => (
                AppModel {
                    items: names,
                    selected: first_selection(names.len()),
                    screen: Screen::Buckets,
                    status: "Connected to S3"@,
                    awaiting: Awaiting::Nothing,
                    ..m
                },
                Step::Idle,
            ),
            Err(e) => (AppModel { status: error_status(e), awaiting: Awaiting::Nothing, ..m }, Step::Idle),
        },
        Awaiting::Objects { bucket } => match r {
            Ok(names) => (
                AppModel {
                    items: names,
                    selected: first_selection(names.len()),
                    screen: Screen::Objects { bucket },
                    status: "Viewing bucket: "@ + bucket,
                    awaiting: Awaiting::Nothing,
                    ..m
                },
                Step::Idle,
            ),
            Err(e) => (AppModel { status: error_status(e), awaiting: Awaiting::Nothing, ..m }, Step::Idle),
        },
        Awaiting::Reload => match r {
            Ok(names) => (
                AppModel {
                    items: names,
                    selected: first_selection(names.len()),
                    awaiting: Awaiting::Nothing,
                    ..m
                },
                Step::Idle,
            ),
            Err(e) => (AppModel { status: error_status(e), awaiting: Awaiting::Nothing, ..m }, Step::Idle),
        },
        _ => (m, Step::Idle),
    }
}

/// What the outcome of a copy or a removal does to the state: on success the
/// list is asked for again.
pub open spec fn after_completion(m: AppModel, r: Result<(), Seq<char>>) -> (AppModel, Step<Seq<char>>) {
    match m.awaiting {
        Awaiting::Copy { source_key, dest_key, dest_bucket } => match r {
            Ok(()) => (
                AppModel {
                    status: "Copied object "@ + source_key + " to "@ + dest_key + " in bucket "@
                        + dest_bucket,
                    awaiting: Awaiting::Reload,
                    ..m
                },
                Step::Call(Request::ListObjects { bucket: dest_bucket }),
            ),
            Err(e) => (AppModel { status: error_status(e), awaiting: Awaiting::Nothing, ..m }, Step::Idle),
        },
        Awaiting::ObjectDeletion { bucket, key } => match r {
            Ok(()) => (
                AppModel {
                    status: "Deleted object "@ + key + " from bucket "@ + bucket,
                    awaiting: Awaiting::Reload,
                    ..m
                },
                Step::Call(Request::ListObjects { bucket }),
            ),
            Err(e) => (AppModel { status: error_status(e), awaiting: Awaiting::Nothing, ..m }, Step::Idle),
        },
        Awaiting::BucketDeletion { bucket } => match r {
            Ok(()) => (
                AppModel {
                    status: "Deleted bucket "@ + bucket,
                    awaiting: Awaiting::Reload,
                    ..m
                },
                Step::Call(Request::ListBuckets),
            ),
            Err(e) => (AppModel { status: error_status(e), awaiting: Awaiting::Nothing, ..m }, Step::Idle),
        },
        _ => (m, Step::Idle),
    }
}

/// The state when the browser opens, waiting for the list of buckets.
pub open spec fn launch_model() -> AppModel {
    AppModel {
        items: Seq::empty(),
        selected: None,
        status: Seq::empty(),
        screen: Screen::Buckets,
        current_selection: CurrentSelection { bucket: None, object: None },
        awaiting: Awaiting::Buckets,
    }
}

/// The path shown in the title: `/`, or `/` and the bucket on screen.
pub open spec fn spec_endpoint(m: AppModel) -> Seq<char> {
    match m.screen {
        Screen::Buckets => "/"@,
        Screen::Objects { bucket } => "/"@ + bucket,
    }
}

/// The title of the list.
pub open spec fn spec_list_title(m: AppModel) -> Seq<char> {
    match m.screen {
        Screen::Buckets => " Buckets "@,
        Screen::Objects { bucket } => " Objects in "@ + bucket + " "@,
    }
}

/// Every key that is handled keeps the state well formed.
pub proof fn lemma_key_keeps_wf(m: AppModel, key: Key)
    requires
        m.wf(),
        !key_panics(m, key),
    ensures
        after_key(m, key).0.wf(),
{
}

/// Every outcome of a listing keeps the state well formed.
pub proof fn lemma_listing_keeps_wf(m: AppModel, r: Result<Seq<Seq<char>>, Seq<char>>)
    requires
        m.wf(),
    ensures
        after_listing(m, r).0.wf(),
{
}

/// Every outcome of a copy or a removal keeps the state well formed.
pub proof fn lemma_completion_keeps_wf(m: AppModel, r: Result<(), Seq<char>>)
    requires
        m.wf(),
    ensures
        after_completion(m, r).0.wf(),
{
}

/// `Up` undoes `Down` on a list that is not empty.
pub proof fn lemma_up_undoes_down(m: AppModel)
    requires
        m.wf(),
        0 < m.items.len() <= usize::MAX,
        m.selected is Some,
    ensures
        after_key(after_key(m, Key::Down).0, Key::Up).0 == m,
{
    let m1 = after_key(m, Key::Down).0;
    let m2 = after_key(m1, Key::Up).0;
    assert(m1.items == m.items);
    let i: usize = m.selected->Some_0;
    let n: nat = m.items.len();
    if i == n - 1 {
        assert(m2.selected == Some(((n - 1) as int) as usize));
    } else {
        assert(m2.selected == Some(i));
    }
    assert(m2 =~= m);
}

/// `Down` undoes `Up` on a list that is not empty.
pub proof fn lemma_down_undoes_up(m: AppModel)
    requires
        m.wf(),
        0 < m.items.len() <= usize::MAX,
        m.selected is Some,
    ensures
        after_key(after_key(m, Key::Up).0, Key::Down).0 == m,
{
    let m1 = after_key(m, Key::Up).0;
    let m2 = after_key(m1, Key::Down).0;
    assert(m1.items == m.items);
    let i: usize = m.selected->Some_0;
    let n: nat = m.items.len();
    if i == n - 1 {
        assert(m2.selected == Some(((n - 1) as int) as usize));
    } else {
        assert(m2.selected == Some(i));
    }
    assert(m2 =~= m);
}

/// No key changes the list or the screen: only the outcome of a listing does.
pub proof fn lemma_keys_keep_items_and_screen(m: AppModel, key: Key)
    ensures
        after_key(m, key).0.items == m.items,
        after_key(m, key).0.screen == m.screen,
{
}

/// Only `c` changes the marked object: every other key, and every outcome
/// of a request, keeps it.
pub proof fn lemma_mark_is_kept(m: AppModel, key: Key, listed: Result<Seq<Seq<char>>, Seq<char>>, done: Result<(), Seq<char>>)
    requires
        key != Key::Char('c'),
    ensures
        after_key(m, key).0.current_selection == m.current_selection,
        after_listing(m, listed).0.current_selection == m.current_selection,
        after_completion(m, done).0.current_selection == m.current_selection,
{
}

/// `p` after `c`: marking the selected object of a bucket and pasting it
/// into the bucket on screen asks for a copy of that object, from its
/// bucket, to its key followed by `_copy` in the bucket on screen.
pub proof fn lemma_paste_copies_marked_object(m: AppModel, later: AppModel, dest_bucket: Seq<char>)
    requires
        m.wf(),
        m.screen is Objects,
        m.selected matches Some(i) && i < m.items.len(),
        later.current_selection == after_key(m, Key::Char('c')).0.current_selection,
        later.screen == (Screen::Objects { bucket: dest_bucket }),
    ensures
        ({
            let source_bucket = m.screen->Objects_bucket;
            let source_key = m.items[m.selected->Some_0 as int];
            after_key(later, Key::Char('p')).1 == Step::Call(Request::CopyObject {
                source_bucket,
                source_key,
                dest_bucket,
                dest_key: source_key + "_copy"@,
            })
        }),
{
}

/// A request that failed is answered in the status line with its error,
/// and leaves the list, the selection and the screen as they were.
pub proof fn lemma_failure_is_reported(m: AppModel, e: Seq<char>)
    requires
        !(m.awaiting is Nothing),
    ensures
        ({
            let r = if m.awaiting is Buckets || m.awaiting is Objects || m.awaiting is Reload {
                after_listing(m, Err(e))
            } else {
                after_completion(m, Err(e))
            };
            &&& r.0 == (AppModel { status: "Error: "@ + e, awaiting: Awaiting::Nothing, ..m })
            &&& r.1 == Step::<Seq<char>>::Idle
        }),
{
}

/// A listing that succeeded fills the list and selects its first item, if any.
pub proof fn lemma_listing_selects_first(m: AppModel, names: Seq<Seq<char>>)
    requires
        m.awaiting is Buckets || m.awaiting is Objects || m.awaiting is Reload,
    ensures
        after_listing(m, Ok(names)).0.items == names,
        after_listing(m, Ok(names)).0.selected == (if names.len() == 0 { None } else { Some(0usize) }),
        after_listing(m, Ok(names)).0.awaiting is Nothing,
{
}

/// An outcome that no request waits for changes nothing.
pub proof fn lemma_unrequested_outcome_is_ignored(m: AppModel, listed: Result<Seq<Seq<char>>, Seq<char>>, done: Result<(), Seq<char>>)
    requires
        m.awaiting is Nothing,
    ensures
        after_listing(m, listed) == (m, Step::<Seq<char>>::Idle),
        after_completion(m, done) == (m, Step::<Seq<char>>::Idle),
{
}

/// `Down` moves the selection one place on, from the last item to the
/// first; `Up` moves it one place back, from the first item to the last.
/// Nothing else changes.
pub proof fn lemma_arrows_move_by_one(m: AppModel)
    requires
        0 < m.items.len() <= usize::MAX,
        m.selected matches Some(i) && i < m.items.len(),
    ensures
        ({
            let n = m.items.len() as int;
            let i = m.selected->Some_0 as int;
            &&& after_key(m, Key::Down).0 == (AppModel { selected: Some(((i + 1) % n) as usize), ..m })
            &&& after_key(m, Key::Up).0 == (AppModel { selected: Some(((i + n - 1) % n) as usize), ..m })
            &&& after_key(m, Key::Down).1 == Step::<Seq<char>>::Idle
            &&& after_key(m, Key::Up).1 == Step::<Seq<char>>::Idle
        }),
{
    let n = m.items.len() as int;
    let i = m.selected->Some_0 as int;
    if i + 1 < n {
        assert((i + 1) % n == i + 1) by (nonlinear_arith)
            requires
                0 <= i + 1 < n,
        ;
    } else {
        assert((i + 1) % n == 0) by (nonlinear_arith)
            requires
                i + 1 == n,
                n > 0,
        ;
    }
    if i == 0 {
        assert((i + n - 1) % n == n - 1) by (nonlinear_arith)
            requires
                i == 0,
                n > 0,
        ;
    } else {
        assert((i + n - 1) % n == i - 1) by (nonlinear_arith)
            requires
                0 < i < n,
        ;
    }
}

/// `d` and `Delete` remove the selected item: on a bucket's objects, the
/// selected object of that bucket; on the buckets, the selected bucket.
/// The state then waits for that removal.
pub proof fn lemma_delete_removes_selected(m: AppModel, key: Key)
    requires
        key == Key::Char('d') || key == Key::Delete,
        m.selected matches Some(i) && i < m.items.len(),
    ensures
        ({
            let name = m.items[m.selected->Some_0 as int];
            let (next, step) = after_key(m, key);
            &&& m.screen matches Screen::Objects { bucket } ==> {
                &&& step == Step::Call(Request::DeleteObject { bucket, key: name })
                &&& next.awaiting == (Awaiting::ObjectDeletion { bucket, key: name })
                &&& next.status == "Deleting object "@ + name + " from bucket "@ + bucket + "..."@
            }
            &&& m.screen is Buckets ==> {
                &&& step == Step::Call(Request::DeleteBucket { bucket: name })
                &&& next.awaiting == (Awaiting::BucketDeletion { bucket: name })
                &&& next.status == "Deleting bucket "@ + name + "..."@
            }
            &&& next.items == m.items
            &&& next.selected == m.selected
            &&& next.screen == m.screen
        }),
{
}

/// A listing that succeeded shows what was asked for, empty or not: the
/// objects of the bucket whose screen was asked for, or the buckets.
pub proof fn lemma_listing_shows_what_was_asked(m: AppModel, names: Seq<Seq<char>>)
    ensures
        m.awaiting matches Awaiting::Objects { bucket } ==> {
            let next = after_listing(m, Ok(names)).0;
            &&& next.screen == (Screen::Objects { bucket })
            &&& next.items == names
            &&& next.status == "Viewing bucket: "@ + bucket
        },
        m.awaiting is Buckets ==> {
            let next = after_listing(m, Ok(names)).0;
            &&& next.screen == Screen::<Seq<char>>::Buckets
            &&& next.items == names
            &&& next.status == "Connected to S3"@
        },
        m.awaiting is Reload ==> {
            let next = after_listing(m, Ok(names)).0;
            &&& next.screen == m.screen
            &&& next.items == names
            &&& next.status == m.status
        },
{
}

impl App {
    /// The state as values.
    pub closed spec fn model(&self) -> AppModel {
        AppModel {
            items: names_view(self.items@),
            selected: self.selected,
            status: self.status@,
            screen: screen_view(self.screen),
            current_selection: selection_view(self.current_selection),
            awaiting: awaiting_view(self.awaiting),
        }
    }

    #[verifier::type_invariant]
    closed spec fn inv(&self) -> bool {
        self.model().wf()
    }
}

impl View for App {
    type V = AppModel;

    open spec fn view(&self) -> AppModel {
        self.model()
    }
}

impl App {
    /// The browser when it opens: an empty bucket screen, waiting for the
    /// list of buckets that the returned request asks for.
    pub fn launch() -> (res: (App, Request<String>))
        ensures
            res.0@ == launch_model(),
            request_view(res.1) == Request::<Seq<char>>::ListBuckets,
    {
        let app = App {
            items: Vec::new(),
            selected: None,
            status: String::new(),
            screen: Screen::Buckets,
            current_selection: CurrentSelection { bucket: None, object: None },
            awaiting: Awaiting::Buckets,
        };
        assert(app@ =~= launch_model());
        (app, Request::ListBuckets)
    }

    /// Whether `key` can be handled, that is, whether it is not one of the
    /// keys that stop the browser with a panic.
    pub fn key_is_safe(&self, key: Key) -> (ok: bool)
        ensures
            ok == !key_panics(self@, key),
    {
        let empty_with_selection = self.selected.is_some() && self.items.len() == 0;
        match key {
            Key::Down => !empty_with_selection,
            Key::Delete => !empty_with_selection,
            Key::Char(c) => {
                let on_objects = match &self.screen {
                    Screen::Objects { .. } => true,
                    Screen::Buckets => false,
                };
                !((c == 'd' || (c == 'c' && on_objects)) && empty_with_selection)
            },
            _ => true,
        }
    }

    /// Handles a key.
    pub fn handle_key(&mut self, key: Key) -> (step: Step<String>)
        requires
            !key_panics(old(self)@, key),
        ensures
            final(self)@ == after_key(old(self)@, key).0,
            step_view(step) == after_key(old(self)@, key).1,
    {
        proof {
            use_type_invariant(&*self);
        }
        match key {
            Key::Char(c) => {
                if c == 'q' {
                    Step::Quit
                } else if c == 'r' {
                    self.refresh()
                } else if c == 'c' {
                    self.mark();
                    Step::Idle
                } else if c == 'p' {
                    self.paste()
                } else if c == 'd' {
                    self.delete()
                } else {
                    Step::Idle
                }
            },
            Key::Down => {
                let i: usize = match self.selected {
                    Some(i) => if i >= self.items.len() - 1 {
                        0
                    } else {
                        i + 1
                    },
                    None => 0,
                };
                self.selected = Some(i);
                Step::Idle
            },
            Key::Up => {
                let i: usize = match self.selected {
                    Some(i) => if self.items.len() == 0 {
                        0
                    } else if i == 0 {
                        self.items.len() - 1
                    } else {
                        i - 1
                    },
                    None => 0,
                };
                self.selected = Some(i);
                Step::Idle
            },
            Key::Enter => self.enter(),
            Key::Esc => self.back(),
            Key::Backspace => self.back(),
            Key::Delete => self.delete(),
            Key::Other => Step::Idle,
        }
    }

    fn enter(&mut self) -> (step: Step<String>)
        ensures
            final(self)@ == after_enter(old(self)@).0,
            step_view(step) == after_enter(old(self)@).1,
    {
        proof {
            use_type_invariant(&*self);
        }
        let i: usize = match self.selected {
            Some(i) => i,
            None => return Step::Idle,
        };
        if self.items.len() == 0 {
            return Step::Idle;
        }
        let selected = self.items[i].clone();
        match &self.screen {
            Screen::Buckets => {
                self.status = join3("Loading objects for ", selected.as_str(), "...");
                self.awaiting = Awaiting::Objects { bucket: selected.clone() };
                Step::Call(Request::ListObjects { bucket: selected })
            },
            Screen::Objects { bucket } => {
                let bucket = bucket.clone();
                self.status = join4("Selected object ", selected.as_str(), " in ", bucket.as_str());
                Step::Idle
            },
        }
    }

    fn back(&mut self) -> (step: Step<String>)
        ensures
            final(self)@ == after_back(old(self)@).0,
            step_view(step) == after_back(old(self)@).1,
    {
        proof {
            use_type_invariant(&*self);
        }
        match &self.screen {
            Screen::Objects { .. } => {
                self.status = String::from_str("Loading buckets...");
                self.awaiting = Awaiting::Buckets;
                Step::Call(Request::ListBuckets)
            },
            Screen::Buckets => Step::Idle,
        }
    }

    fn refresh(&mut self) -> (step: Step<String>)
        ensures
            final(self)@ == after_refresh(old(self)@).0,
            step_view(step) == after_refresh(old(self)@).1,
    {
        proof {
            use_type_invariant(&*self);
        }
        match &self.screen {
            Screen::Objects { bucket } => {
                let bucket = bucket.clone();
                self.status = join3("Refreshing objects in bucket ", bucket.as_str(), "...");
                self.awaiting = Awaiting::Objects { bucket: bucket.clone() };
                Step::Call(Request::ListObjects { bucket })
            },
            Screen::Buckets => {
                self.status = String::from_str("Refreshing buckets...");
                self.awaiting = Awaiting::Buckets;
                Step::Call(Request::ListBuckets)
            },
        }
    }

    fn mark(&mut self)
        requires
            !key_panics(old(self)@, Key::Char('c')),
        ensures
            final(self)@ == after_mark(old(self)@).0,
    {
        proof {
            use_type_invariant(&*self);
        }
        match &self.screen {
            Screen::Objects { bucket } => {
                let bucket = bucket.clone();
                match self.selected {
                    Some(i) => {
                        let object = self.items[i].clone();
                        self.current_selection = CurrentSelection {
                            bucket: Some(bucket),
                            object: Some(object),
                        };
                    },
                    None => {},
                }
            },
            Screen::Buckets => {},
        }
    }

    fn paste(&mut self) -> (step: Step<String>)
        ensures
            final(self)@ == after_paste(old(self)@).0,
            step_view(step) == after_paste(old(self)@).1,
    {
        proof {
            use_type_invariant(&*self);
        }
        let source_key = match &self.current_selection.object {
            Some(o) => o.clone(),
            None => return Step::Idle,
        };
        let dest_bucket = match &self.screen {
            Screen::Objects { bucket } => bucket.clone(),
            Screen::Buckets => return Step::Idle,
        };
        let source_bucket = match &self.current_selection.bucket {
            Some(b) => b.clone(),
            None => return Step::Idle,
        };
        let dest_key = join2(source_key.as_str(), "_copy");
        self.status = join5(
            "Copying object ",
            source_key.as_str(),
            " from bucket ",
            source_bucket.as_str(),
            "...",
        );
        self.awaiting = Awaiting::Copy {
            source_key: source_key.clone(),
            dest_key: dest_key.clone(),
            dest_bucket: dest_bucket.clone(),
        };
        Step::Call(Request::CopyObject { source_bucket, source_key, dest_bucket, dest_key })
    }

    fn delete(&mut self) -> (step: Step<String>)
        requires
            !key_panics(old(self)@, Key::Delete),
        ensures
            final(self)@ == after_delete(old(self)@).0,
            step_view(step) == after_delete(old(self)@).1,
    {
        proof {
            use_type_invariant(&*self);
        }
        let i: usize = match self.selected {
            Some(i) => i,
            None => return Step::Idle,
        };
        let name = self.items[i].clone();
        match &self.screen {
            Screen::Objects { bucket } => {
                let bucket = bucket.clone();
                self.status = join5(
                    "Deleting object ",
                    name.as_str(),
                    " from bucket ",
                    bucket.as_str(),
                    "...",
                );
                self.awaiting = Awaiting::ObjectDeletion { bucket: bucket.clone(), key: name.clone() };
                Step::Call(Request::DeleteObject { bucket, key: name })
            },
            Screen::Buckets => {
                self.status = join3("Deleting bucket ", name.as_str(), "...");
                self.awaiting = Awaiting::BucketDeletion { bucket: name.clone() };
                Step::Call(Request::DeleteBucket { bucket: name })
            },
        }
    }
}

impl App {
    /// Replaces the items and selects the first, if any.
    fn fill(&mut self, names: Vec<String>)
        ensures
            final(self)@ == (AppModel {
                items: names_view(names@),
                selected: first_selection(names@.len()),
                ..old(self)@
            }),
    {
        proof {
            use_type_invariant(&*self);
        }
        self.selected = None;
        self.items = names;
        if self.items.len() == 0 {
            self.selected = None;
        } else {
            self.selected = Some(0);
        }
    }

    /// Hands back the outcome of a listing of buckets or of objects, with
    /// the message of the error where it failed. An outcome that no listing
    /// waits for leaves the state as it is.
    pub fn handle_listing(&mut self, outcome: Result<Vec<String>, String>) -> (step: Step<String>)
        ensures
            final(self)@ == after_listing(old(self)@, listing_view(outcome)).0,
            step_view(step) == after_listing(old(self)@, listing_view(outcome)).1,
    {
        proof {
            use_type_invariant(&*self);
        }
        let waiting_for_listing = match &self.awaiting {
            Awaiting::Buckets => true,
            Awaiting::Objects { .. } => true,
            Awaiting::Reload => true,
            _ => false,
        };
        if !waiting_for_listing {
            return Step::Idle;
        }
        match outcome {
            Err(e) => {
                self.status = join2("Error: ", e.as_str());
                self.awaiting = Awaiting::Nothing;
            },
            Ok(names) => {
                let mut awaiting = Awaiting::Nothing;
                std::mem::swap(&mut awaiting, &mut self.awaiting);
                self.fill(names);
                match awaiting {
                    Awaiting::Buckets => {
                        self.screen = Screen::Buckets;
                        self.status = String::from_str("Connected to S3");
                    },
                    Awaiting::Objects { bucket } => {
                        self.status = join2("Viewing bucket: ", bucket.as_str());
                        self.screen = Screen::Objects { bucket };
                    },
                    _ => {},
                }
            },
        }
        Step::Idle
    }

    /// Hands back the outcome of a copy or a removal, with the message of
    /// the error where it failed. An outcome that nothing waits for leaves
    /// the state as it is.
    pub fn handle_completion(&mut self, outcome: Result<(), String>) -> (step: Step<String>)
        ensures
            final(self)@ == after_completion(old(self)@, completion_view(outcome)).0,
            step_view(step) == after_completion(old(self)@, completion_view(outcome)).1,
    {
        proof {
            use_type_invariant(&*self);
        }
        let waiting_for_completion = match &self.awaiting {
            Awaiting::Copy { .. } => true,
            Awaiting::ObjectDeletion { .. } => true,
            Awaiting::BucketDeletion { .. } => true,
            _ => false,
        };
        if !waiting_for_completion {
            return Step::Idle;
        }
        if let Err(e) = outcome {
            self.status = join2("Error: ", e.as_str());
            self.awaiting = Awaiting::Nothing;
            return Step::Idle;
        }
        let mut awaiting = Awaiting::Reload;
        std::mem::swap(&mut awaiting, &mut self.awaiting);
        match awaiting {
            Awaiting::Copy { source_key, dest_key, dest_bucket } => {
                self.status = join6(
                    "Copied object ",
                    source_key.as_str(),
                    " to ",
                    dest_key.as_str(),
                    " in bucket ",
                    dest_bucket.as_str(),
                );
                Step::Call(Request::ListObjects { bucket: dest_bucket })
            },
            Awaiting::ObjectDeletion { bucket, key } => {
                self.status = join4("Deleted object ", key.as_str(), " from bucket ", bucket.as_str());
                Step::Call(Request::ListObjects { bucket })
            },
            Awaiting::BucketDeletion { bucket } => {
                self.status = join2("Deleted bucket ", bucket.as_str());
                Step::Call(Request::ListBuckets)
            },
            _ => Step::Idle,
        }
    }

    /// Takes back the selection as drawing left it: drawing may move a
    /// selection past the end of the list onto the last item, or clear it.
    pub fn set_selected(&mut self, selected: Option<usize>)
        requires
            selected matches Some(i) ==> i < old(self)@.items.len() || i == 0,
        ensures
            final(self)@ == (AppModel { selected, ..old(self)@ }),
    {
        proof {
            use_type_invariant(&*self);
        }
        self.selected = selected;
    }

    /// The names listed.
    pub fn items(&self) -> (items: &Vec<String>)
        ensures
            names_view(items@) == self@.items,
    {
        &self.items
    }

    /// The position of the selected item, if any.
    pub fn selected(&self) -> (selected: Option<usize>)
        ensures
            selected == self@.selected,
    {
        self.selected
    }

    /// The status line.
    pub fn status(&self) -> (status: &str)
        ensures
            status@ == self@.status,
    {
        self.status.as_str()
    }

    /// What the list shows.
    pub fn screen(&self) -> (screen: &Screen<String>)
        ensures
            screen_view(*screen) == self@.screen,
    {
        &self.screen
    }

    /// The path shown in the title.
    pub fn endpoint(&self) -> (path: String)
        ensures
            path@ == spec_endpoint(self@),
    {
        match &self.screen {
            Screen::Buckets => String::from_str("/"),
            Screen::Objects { bucket } => join2("/", bucket.as_str()),
        }
    }

    /// The title of the list.
    pub fn list_title(&self) -> (title: String)
        ensures
            title@ == spec_list_title(self@),
    {
        match &self.screen {
            Screen::Buckets => String::from_str(" Buckets "),
            Screen::Objects { bucket } => join3(" Objects in ", bucket.as_str(), " "),
        }
    }
}

} // verus!
