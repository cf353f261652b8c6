//! The application state machine: one deterministic transition function
//! folds user key presses and background task completions, normalized to a
//! single message vocabulary, into the next UI state and an optional
//! outside-world command.
use crate::input::{search_step, search_wf, KeyInput, SearchBuffer, SearchView};
use crate::pipeline::FetchErrorKind;
use crate::sizing::ProtocolTag;
use crate::stateful_list::{list_next, list_previous, list_wf, ListView, StatefulList};
use vstd::prelude::*;
use vstd::string::StringExecFns;

verus! {

broadcast use vstd::std_specs::vec::group_vec_axioms;

/// The UI mode the application is in; exactly one at any time.
#[derive(Clone, Copy, PartialEq, Eq, Structural, Debug)]
pub enum RunningState {
    Loading,
    BrowsingCategories,
    BrowsingImages,
    Searching,
    ShowingDownloadPopup,
    Exit,
}

/// A fully loaded image: display name, detected pixel dimensions, the
/// rendering protocol chosen for it, and the raw encoded bytes retained so a
/// download needs no re-fetch.
#[derive(Clone, Debug)]
pub struct Image {
    pub name: String,
    pub width: u16,
    pub height: u16,
    pub protocol: ProtocolTag,
    pub data: Vec<u8>,
}

/// Mathematical model of an `Image`.
#[verifier::ext_equal]
pub ghost struct ImageView {
    pub name: Seq<char>,
    pub width: u16,
    pub height: u16,
    pub protocol: ProtocolTag,
    pub data: Seq<u8>,
}

impl View for Image {
    type V = ImageView;

    open spec fn view(&self) -> ImageView {
        ImageView {
            name: self.name@,
            width: self.width,
            height: self.height,
            protocol: self.protocol,
            data: self.data@,
        }
    }
}

/// The one vocabulary every event is normalized to before it reaches the
/// transition function: key-driven requests and background completions
/// alike.
#[derive(Debug)]
pub enum Message {
    /// Request the category listing (injected once at startup).
    LoadCategories,
    /// The category listing arrived, already ordered by the catalog service.
    CategoriesLoaded(Vec<String>),
    BrowseCategories,
    /// Request the image listing of one category.
    ShowImageList(String),
    /// An image listing (category contents or search results) arrived.
    ImagesLoaded(Vec<String>),
    /// Start a background fetch of the selected image.
    LoadImage,
    /// A background fetch completed with a fully constructed image.
    ShowImage(Image),
    /// A background fetch failed.
    FetchFailed(FetchErrorKind),
    DownloadImage,
    DismissDownloadPrompt,
    Search,
    HandleSearchInput(KeyInput),
    ShowSearchResults,
    MoveUpCategories,
    MoveDownCategories,
    MoveUpImages,
    MoveDownImages,
    Exit,
}

/// Mathematical model of a `Message`.
#[verifier::ext_equal]
pub ghost enum MessageView {
    LoadCategories,
    CategoriesLoaded(Seq<Seq<char>>),
    BrowseCategories,
    ShowImageList(Seq<char>),
    ImagesLoaded(Seq<Seq<char>>),
    LoadImage,
    ShowImage(ImageView),
    FetchFailed(FetchErrorKind),
    DownloadImage,
    DismissDownloadPrompt,
    Search,
    HandleSearchInput(KeyInput),
    ShowSearchResults,
    MoveUpCategories,
    MoveDownCategories,
    MoveUpImages,
    MoveDownImages,
    Exit,
}

impl View for Message {
    type V = MessageView;

    open spec fn view(&self) -> MessageView {
        match self {
            Message::LoadCategories => MessageView::LoadCategories,
            Message::CategoriesLoaded(v) => MessageView::CategoriesLoaded(v.deep_view()),
            Message::BrowseCategories => MessageView::BrowseCategories,
            Message::ShowImageList(c) => MessageView::ShowImageList(c@),
            Message::ImagesLoaded(v) => MessageView::ImagesLoaded(v.deep_view()),
            Message::LoadImage => MessageView::LoadImage,
            Message::ShowImage(i) => MessageView::ShowImage(i@),
            Message::FetchFailed(e) => MessageView::FetchFailed(*e),
            Message::DownloadImage => MessageView::DownloadImage,
            Message::DismissDownloadPrompt => MessageView::DismissDownloadPrompt,
            Message::Search => MessageView::Search,
            Message::HandleSearchInput(k) => MessageView::HandleSearchInput(*k),
            Message::ShowSearchResults => MessageView::ShowSearchResults,
            Message::MoveUpCategories => MessageView::MoveUpCategories,
            Message::MoveDownCategories => MessageView::MoveDownCategories,
            Message::MoveUpImages => MessageView::MoveUpImages,
            Message::MoveDownImages => MessageView::MoveDownImages,
            Message::Exit => MessageView::Exit,
        }
    }
}

/// The outside work a transition asks its caller to perform. The caller
/// performs it and feeds the outcome back as a `Message`.
#[derive(Debug, PartialEq)]
pub enum Command {
    /// Fetch the category listing; answer with `CategoriesLoaded`.
    FetchCategories,
    /// Fetch the contents of one category; answer with `ImagesLoaded`.
    FetchImageList(String),
    /// Search the catalog with this query; answer with `ImagesLoaded`.
    SearchImages(String),
    /// Spawn a background fetch of the record at this index of the image
    /// list; answer with `ShowImage` or `FetchFailed`.
    SpawnImageFetch(usize),
    /// Write these bytes to the platform download directory under this file
    /// name.
    WriteDownload(String, Vec<u8>),
}

/// Mathematical model of a `Command`.
#[verifier::ext_equal]
pub ghost enum CommandView {
    FetchCategories,
    FetchImageList(Seq<char>),
    SearchImages(Seq<char>),
    SpawnImageFetch(int),
    WriteDownload(Seq<char>, Seq<u8>),
}

impl View for Command {
    type V = CommandView;

    open spec fn view(&self) -> CommandView {
        match self {
            Command::FetchCategories => CommandView::FetchCategories,
            Command::FetchImageList(c) => CommandView::FetchImageList(c@),
            Command::SearchImages(q) => CommandView::SearchImages(q@),
            Command::SpawnImageFetch(i) => CommandView::SpawnImageFetch(*i as int),
            Command::WriteDownload(n, d) => CommandView::WriteDownload(n@, d@),
        }
    }
}

pub open spec fn opt_cmd_view(c: Option<Command>) -> Option<CommandView> {
    match c {
        Some(cmd) => Some(cmd.view()),
        None => None,
    }
}

pub open spec fn opt_msg_view(m: Option<Message>) -> Option<MessageView> {
    match m {
        Some(msg) => Some(msg.view()),
        None => None,
    }
}

pub open spec fn opt_image_view(i: &Option<Image>) -> Option<ImageView> {
    match i {
        Some(img) => Some(img.view()),
        None => None,
    }
}

/// The whole application state the transition function reads and writes.
pub struct App {
    pub running_state: RunningState,
    /// The mode to restore when the download popup is dismissed. A single
    /// saved mode, not a stack: entering the popup twice in a row
    /// overwrites it.
    pub previous_running_state: RunningState,
    pub categories: StatefulList,
    pub images_list: StatefulList,
    /// The currently shown image, replaced wholesale on each load.
    pub image: Option<Image>,
    /// Set permanently once the first image load begins; switches the empty
    /// pane from blank to a loading placeholder.
    pub shown_at_least_one_image: bool,
    pub search_input: SearchBuffer,
    /// The most recent background fetch failure, shown until the next load.
    pub last_error: Option<FetchErrorKind>,
}

/// Mathematical model of the application state.
#[verifier::ext_equal]
pub ghost struct AppView {
    pub running_state: RunningState,
    pub previous_running_state: RunningState,
    pub categories: ListView,
    pub images_list: ListView,
    pub image: Option<ImageView>,
    pub shown_at_least_one_image: bool,
    pub search_input: SearchView,
    pub last_error: Option<FetchErrorKind>,
}

impl View for App {
    type V = AppView;

    open spec fn view(&self) -> AppView {
        AppView {
            running_state: self.running_state,
            previous_running_state: self.previous_running_state,
            categories: self.categories.view(),
            images_list: self.images_list.view(),
            image: opt_image_view(&self.image),
            shown_at_least_one_image: self.shown_at_least_one_image,
            search_input: self.search_input.view(),
            last_error: self.last_error,
        }
    }
}

/// Lexicographic order on texts, by code point.
pub open spec fn str_le(a: Seq<char>, b: Seq<char>) -> bool
    decreases a.len(),
{
    if a.len() == 0 {
        true
    } else if b.len() == 0 {
        false
    } else if a[0] != b[0] {
        a[0] < b[0]
    } else {
        str_le(a.drop_first(), b.drop_first())
    }
}

/// Names the ascending reordering a sort produces. Strings are totally
/// ordered and equal strings are identical, so the sorted sequence is the
/// unique ordered permutation of its input.
pub uninterp spec fn sorted_strings_of(items: Seq<Seq<char>>) -> Seq<Seq<char>>;

/// Relies on std's slice::sort_unstable: reorders the vector in place into
/// ascending order under String's lexicographic (code point) ordering.
#[verifier::external_body]
fn sort_strings(v: &mut Vec<String>)
    ensures
        final(v).deep_view() == sorted_strings_of(old(v).deep_view()),
        final(v).deep_view().len() == old(v).deep_view().len(),
        final(v).deep_view().to_multiset() == old(v).deep_view().to_multiset(),
        forall|i: int, j: int|
            0 <= i < j < final(v).deep_view().len() ==> str_le(
                final(v).deep_view()[i],
                final(v).deep_view()[j],
            ),
{
    v.sort_unstable();
}

/// Well-formedness of the application state: both lists and the search
/// buffer keep their invariants.
pub open spec fn app_wf(a: AppView) -> bool {
    &&& list_wf(a.categories)
    &&& list_wf(a.images_list)
    &&& search_wf(a.search_input)
}

/// A fresh list over the given items, first item selected when non-empty.
pub open spec fn list_from(items: Seq<Seq<char>>) -> ListView {
    ListView {
        items,
        selected: if items.len() > 0 {
            Some(0int)
        } else {
            None
        },
    }
}

/// The transition function: the state after folding one message into the
/// application state.
pub open spec fn step(a: AppView, m: MessageView) -> AppView {
    match m {
        MessageView::LoadCategories => a,
        MessageView::CategoriesLoaded(items) => AppView {
            categories: list_from(sorted_strings_of(items)),
            running_state: RunningState::BrowsingCategories,
            ..a
        },
        MessageView::BrowseCategories => AppView {
            running_state: RunningState::BrowsingCategories,
            ..a
        },
        MessageView::ShowImageList(_) => AppView {
            running_state: RunningState::BrowsingImages,
            ..a
        },
        MessageView::ImagesLoaded(items) => AppView { images_list: list_from(items), ..a },
        MessageView::LoadImage => if a.images_list.selected is Some {
            AppView { image: None, shown_at_least_one_image: true, last_error: None, ..a }
        } else {
            a
        },
        MessageView::ShowImage(img) => AppView { image: Some(img), ..a },
        MessageView::FetchFailed(e) => AppView { last_error: Some(e), ..a },
        MessageView::DownloadImage => if a.image is Some {
            AppView {
                previous_running_state: a.running_state,
                running_state: RunningState::ShowingDownloadPopup,
                ..a
            }
        } else {
            a
        },
        MessageView::DismissDownloadPrompt => AppView {
            running_state: a.previous_running_state,
            ..a
        },
        MessageView::Search => AppView { running_state: RunningState::Searching, ..a },
        MessageView::HandleSearchInput(k) => AppView {
            search_input: search_step(a.search_input, k),
            ..a
        },
        MessageView::ShowSearchResults => AppView {
            running_state: RunningState::BrowsingImages,
            ..a
        },
        MessageView::MoveUpCategories => AppView { categories: list_previous(a.categories), ..a },
        MessageView::MoveDownCategories => AppView { categories: list_next(a.categories), ..a },
        MessageView::MoveUpImages => AppView { images_list: list_previous(a.images_list), ..a },
        MessageView::MoveDownImages => AppView { images_list: list_next(a.images_list), ..a },
        MessageView::Exit => AppView { running_state: RunningState::Exit, ..a },
    }
}

/// The outside work one transition requests, if any.
pub open spec fn step_command(a: AppView, m: MessageView) -> Option<CommandView> {
    match m {
        MessageView::LoadCategories => Some(CommandView::FetchCategories),
        MessageView::ShowImageList(cat) => Some(CommandView::FetchImageList(cat)),
        MessageView::ShowSearchResults => Some(CommandView::SearchImages(a.search_input.chars)),
        MessageView::LoadImage => match a.images_list.selected {
            Some(i) => Some(CommandView::SpawnImageFetch(i)),
            None => None,
        },
        MessageView::DownloadImage => match a.image {
            Some(img) => Some(CommandView::WriteDownload(img.name + ".jpeg"@, img.data)),
            None => None,
        },
        _ => None,
    }
}

impl App {
    /// The initial application state: loading, nothing listed, nothing
    /// shown.
    pub fn new() -> (a: App)
        ensures
            app_wf(a@),
            a@.running_state == RunningState::Loading,
            a@.previous_running_state == RunningState::Loading,
            a@.categories.items.len() == 0,
            a@.images_list.items.len() == 0,
            a@.image is None,
            !a@.shown_at_least_one_image,
            a@.search_input.chars.len() == 0,
            a@.last_error is None,
    {
        App {
            running_state: RunningState::Loading,
            previous_running_state: RunningState::Loading,
            categories: StatefulList::with_items(Vec::new()),
            images_list: StatefulList::with_items(Vec::new()),
            image: None,
            shown_at_least_one_image: false,
            search_input: SearchBuffer::new(),
            last_error: None,
        }
    }
}

/// Folds one message into the application state and returns the outside
/// work the caller must perform, exactly as `step` and `step_command` say.
pub fn update(app: &mut App, msg: Message) -> (cmd: Option<Command>)
    requires
        app_wf(old(app)@),
    ensures
        app_wf(final(app)@),
        final(app)@ == step(old(app)@, msg@),
        opt_cmd_view(cmd) == step_command(old(app)@, msg@),
{
    let ghost a0 = app@;
    let ghost mv = msg@;
    let cmd: Option<Command> = match msg {
        Message::LoadCategories => Some(Command::FetchCategories),
        Message::CategoriesLoaded(items) => {
            let mut sorted = items;
            sort_strings(&mut sorted);
            app.categories = StatefulList::with_items(sorted);
            app.running_state = RunningState::BrowsingCategories;
            None
        },
        Message::BrowseCategories => {
            app.running_state = RunningState::BrowsingCategories;
            None
        },
        Message::ShowImageList(category) => {
            app.running_state = RunningState::BrowsingImages;
            Some(Command::FetchImageList(category))
        },
        Message::ImagesLoaded(items) => {
            app.images_list = StatefulList::with_items(items);
            None
        },
        Message::LoadImage => {
            match app.images_list.selected() {
                Some(i) => {
                    app.image = None;
                    app.shown_at_least_one_image = true;
                    app.last_error = None;
                    Some(Command::SpawnImageFetch(i))
                },
                None => None,
            }
        },
        Message::ShowImage(image) => {
            app.image = Some(image);
            None
        },
        Message::FetchFailed(e) => {
            app.last_error = Some(e);
            None
        },
        Message::DownloadImage => {
            match &app.image {
                Some(img) => {
                    let file_name = img.name.clone().concat(".jpeg");
                    let data = img.data.clone();
                    app.previous_running_state = app.running_state;
                    app.running_state = RunningState::ShowingDownloadPopup;
                    Some(Command::WriteDownload(file_name, data))
                },
                None => None,
            }
        },
        Message::DismissDownloadPrompt => {
            app.running_state = app.previous_running_state;
            None
        },
        Message::Search => {
            app.running_state = RunningState::Searching;
            None
        },
        Message::HandleSearchInput(key) => {
            app.search_input.handle_key(key);
            None
        },
        Message::ShowSearchResults => {
            app.running_state = RunningState::BrowsingImages;
            Some(Command::SearchImages(app.search_input.value()))
        },
        Message::MoveUpCategories => {
            app.categories.previous();
            None
        },
        Message::MoveDownCategories => {
            app.categories.next();
            None
        },
        Message::MoveUpImages => {
            app.images_list.previous();
            None
        },
        Message::MoveDownImages => {
            app.images_list.next();
            None
        },
        Message::Exit => {
            app.running_state = RunningState::Exit;
            None
        },
    };
    proof {
        assert(app@ =~~= step(a0, mv));
        assert(opt_cmd_view(cmd) =~~= step_command(a0, mv));
    }
    cmd
}

/// What one key press means in the current mode, before any state changes:
/// the message to fold, or nothing when the key has no meaning there.
pub open spec fn key_message(a: AppView, key: KeyInput) -> Option<MessageView> {
    match a.running_state {
        RunningState::Searching => if key is Enter && a.search_input.chars.len() > 0 {
            Some(MessageView::ShowSearchResults)
        } else {
            Some(MessageView::HandleSearchInput(key))
        },
        RunningState::BrowsingCategories => match key {
            KeyInput::Up => Some(MessageView::MoveUpCategories),
            KeyInput::Down => Some(MessageView::MoveDownCategories),
            KeyInput::Right | KeyInput::Enter => match a.categories.selected {
                Some(i) => Some(MessageView::ShowImageList(a.categories.items[i])),
                None => None,
            },
            KeyInput::Char(c) => if c == 'q' {
                Some(MessageView::Exit)
            } else if c == 's' || c == '/' {
                Some(MessageView::Search)
            } else if c == 'd' && a.image is Some {
                Some(MessageView::DownloadImage)
            } else {
                None
            },
            _ => None,
        },
        RunningState::BrowsingImages => match key {
            KeyInput::Up => Some(MessageView::MoveUpImages),
            KeyInput::Down => Some(MessageView::MoveDownImages),
            KeyInput::Left => Some(MessageView::BrowseCategories),
            KeyInput::Right | KeyInput::Enter => Some(MessageView::LoadImage),
            KeyInput::Char(c) => if c == 'q' {
                Some(MessageView::Exit)
            } else if c == 's' || c == '/' {
                Some(MessageView::Search)
            } else if c == 'd' && a.image is Some {
                Some(MessageView::DownloadImage)
            } else {
                None
            },
            _ => None,
        },
        RunningState::ShowingDownloadPopup => Some(MessageView::DismissDownloadPrompt),
        RunningState::Exit | RunningState::Loading => None,
    }
}

/// Translates one key press into a message; see `key_message`. Selecting a
/// category on an empty category list yields nothing rather than indexing
/// out of range.
pub fn handle_key(app: &App, key: KeyInput) -> (r: Option<Message>)
    requires
        app_wf(app@),
    ensures
        opt_msg_view(r) == key_message(app@, key),
{
    let r: Option<Message> = match app.running_state {
        RunningState::Searching => {
            let empty = app.search_input.is_empty();
            match key {
                KeyInput::Enter => if !empty {
                    Some(Message::ShowSearchResults)
                } else {
                    Some(Message::HandleSearchInput(key))
                },
                _ => Some(Message::HandleSearchInput(key)),
            }
        },
        RunningState::BrowsingCategories => match key {
            KeyInput::Up => Some(Message::MoveUpCategories),
            KeyInput::Down => Some(Message::MoveDownCategories),
            KeyInput::Right | KeyInput::Enter => match app.categories.selected() {
                Some(i) => Some(Message::ShowImageList(app.categories.items[i].clone())),
                None => None,
            },
            KeyInput::Char(c) => if c == 'q' {
                Some(Message::Exit)
            } else if c == 's' || c == '/' {
                Some(Message::Search)
            } else if c == 'd' && app.image.is_some() {
                Some(Message::DownloadImage)
            } else {
                None
            },
            _ => None,
        },
        RunningState::BrowsingImages => match key {
            KeyInput::Up => Some(Message::MoveUpImages),
            KeyInput::Down => Some(Message::MoveDownImages),
            KeyInput::Left => Some(Message::BrowseCategories),
            KeyInput::Right | KeyInput::Enter => Some(Message::LoadImage),
            KeyInput::Char(c) => if c == 'q' {
                Some(Message::Exit)
            } else if c == 's' || c == '/' {
                Some(Message::Search)
            } else if c == 'd' && app.image.is_some() {
                Some(Message::DownloadImage)
            } else {
                None
            },
            _ => None,
        },
        RunningState::ShowingDownloadPopup => Some(Message::DismissDownloadPrompt),
        RunningState::Exit | RunningState::Loading => None,
    };
    proof {
        assert(opt_msg_view(r) =~~= key_message(app@, key));
    }
    r
}

/// The view suppresses all interaction below the minimum viable terminal
/// size: strictly more than 72 cells wide and 8 tall.
pub fn window_size_ok(width: u16, height: u16) -> (r: bool)
    ensures
        r == (width > 72 && height > 8),
{
    width > 72 && height > 8
}

/// Replaying a completed-fetch message is harmless: the image shown after
/// two deliveries is the payload of the second (last write wins), and
/// replaying the very same completion twice leaves exactly the state the
/// first delivery produced.
pub proof fn lemma_show_image_last_write_wins(a: AppView, first: ImageView, second: ImageView)
    ensures
        step(step(a, MessageView::ShowImage(first)), MessageView::ShowImage(second)).image
            == Some(second),
        step(step(a, MessageView::ShowImage(first)), MessageView::ShowImage(first)) == step(
            a,
            MessageView::ShowImage(first),
        ),
{
    assert(step(step(a, MessageView::ShowImage(first)), MessageView::ShowImage(first)) =~~= step(
        a,
        MessageView::ShowImage(first),
    ));
}

/// Selecting a category while none are loaded is a no-op: with an empty,
/// well-formed category list, the enter keys produce no message at all.
pub proof fn lemma_enter_on_empty_categories_rejected(a: AppView, key: KeyInput)
    requires
        a.running_state == RunningState::BrowsingCategories,
        list_wf(a.categories),
        a.categories.items.len() == 0,
        key is Enter || key is Right,
    ensures
        key_message(a, key) is None,
{
}

/// A background failure arriving late — for instance a decode error landing
/// after the user navigated back to the category list — is absorbed: it
/// never changes the running mode, the shown image, or the lists, and asks
/// for no outside work.
pub proof fn lemma_fetch_failure_keeps_state(a: AppView, e: FetchErrorKind)
    ensures
        step(a, MessageView::FetchFailed(e)).running_state == a.running_state,
        step(a, MessageView::FetchFailed(e)).image == a.image,
        step(a, MessageView::FetchFailed(e)).categories == a.categories,
        step(a, MessageView::FetchFailed(e)).images_list == a.images_list,
        step_command(a, MessageView::FetchFailed(e)) is None,
{
}

/// Dismissing the download popup restores exactly the mode that was active
/// when the download was triggered; apart from the saved previous mode,
/// nothing else changes across the round trip.
pub proof fn lemma_download_popup_round_trip(a: AppView)
    requires
        a.image is Some,
    ensures
        step(a, MessageView::DownloadImage).running_state == RunningState::ShowingDownloadPopup,
        step(step(a, MessageView::DownloadImage), MessageView::DismissDownloadPrompt)
            == (AppView { previous_running_state: a.running_state, ..a }),
{
    assert(step(step(a, MessageView::DownloadImage), MessageView::DismissDownloadPrompt) =~~= (
    AppView { previous_running_state: a.running_state, ..a }));
}

} // verus!
