//! The wizard's modes and the rules by which a submitted line of text moves
//! the wizard from one mode to the next.
//!
//! Work on image files is not done here. A submission that calls for it
//! yields a [`Request`]; whoever carries the request out reports an
//! [`Outcome`], and [`settle`] says where the wizard goes from there.

use crate::parse::{
    chars_of, dimensions, parse_dimensions, parse_unsigned_within, trim, trimmed_bounds, unsigned,
};
use vstd::prelude::*;

verus! {

/// The five modes of the wizard. `SelectMode` is the hub: the menu from which
/// the other four are chosen, and the mode after every completed operation.
#[derive(Clone, Copy, Debug, PartialEq, Eq, Structural)]
pub enum WizardMode {
    SelectMode,
    ImagePicker,
    ReSize,
    Grayscale,
    Blur,
}

/// What the user is told when a submission did not go through.
#[derive(Clone, Copy, Debug, PartialEq, Eq, Structural)]
pub enum Notice {
    /// An operation was asked for before any image had been chosen.
    NoImageChosen,
    /// The text was not of the form `WxH`.
    BadDimensions,
    /// The text was not a blur strength.
    BadStrength,
    /// The file could not be opened as an image.
    OpenFailed,
    /// The changed image could not be written back.
    SaveFailed,
}

/// How the work that a [`Request`] asked for ended.
#[derive(Clone, Copy, Debug, PartialEq, Eq, Structural)]
pub enum Outcome {
    /// The work was done: the path was found to hold an image, or the file was
    /// overwritten with the changed image.
    Done,
    /// The blur strength was not a number, or not one to blur by.
    BadStrength,
    /// The file could not be opened as an image.
    OpenFailed,
    /// The changed image could not be written back.
    SaveFailed,
}

/// The filter by which an image is sampled when it is resized.
#[derive(Clone, Copy, Debug, PartialEq, Eq, Structural)]
pub enum Filter {
    Nearest,
    /// Linear interpolation between neighbouring pixels.
    Triangle,
    CatmullRom,
    Gaussian,
    Lanczos3,
}

/// Work on an image file that a submission calls for. A changed image
/// overwrites the file it was read from: there is no other output and no
/// backup.
#[derive(Clone, Debug, PartialEq, Eq)]
pub enum Request {
    /// Check that `path` opens as an image.
    Validate { path: String },
    /// Resize the image at `path` to `width` by `height`, sampling with
    /// `filter`, and overwrite it.
    Resize { path: String, width: u32, height: u32, filter: Filter },
    /// Turn the image at `path` to grayscale and overwrite it.
    Grayscale { path: String },
    /// Blur the image at `path` by `strength`, which is handed on as it was
    /// typed, and overwrite it.
    Blur { path: String, strength: String },
}

/// The mathematical value of a [`Request`].
pub enum RequestView {
    Validate { path: Seq<char> },
    Resize { path: Seq<char>, width: u32, height: u32, filter: Filter },
    Grayscale { path: Seq<char> },
    Blur { path: Seq<char>, strength: Seq<char> },
}

impl View for Request {
    type V = RequestView;

    open spec fn view(&self) -> RequestView {
        match *self {
            Request::Validate { path } => RequestView::Validate { path: path@ },
            Request::Resize { path, width, height, filter } => RequestView::Resize {
                path: path@,
                width,
                height,
                filter,
            },
            Request::Grayscale { path } => RequestView::Grayscale { path: path@ },
            Request::Blur { path, strength } => RequestView::Blur {
                path: path@,
                strength: strength@,
            },
        }
    }
}

impl RequestView {
    /// The file that the request is about.
    pub open spec fn path(self) -> Seq<char> {
        match self {
            RequestView::Validate { path } => path,
            RequestView::Resize { path, .. } => path,
            RequestView::Grayscale { path } => path,
            RequestView::Blur { path, .. } => path,
        }
    }
}

impl Request {
    /// The file that the request is about.
    pub fn path(&self) -> (path: &String)
        ensures
            path@ == self@.path(),
    {
        match self {
            Request::Validate { path } => path,
            Request::Resize { path, .. } => path,
            Request::Grayscale { path } => path,
            Request::Blur { path, .. } => path,
        }
    }
}

/// The mathematical value of a request that may not be there.
pub open spec fn request_view(request: Option<Request>) -> Option<RequestView> {
    match request {
        Some(request) => Some(request@),
        None => None,
    }
}

/// The path of the chosen image, if one has been chosen, as a sequence of
/// characters.
pub open spec fn target_view(target: Option<String>) -> Option<Seq<char>> {
    match target {
        Some(path) => Some(path@),
        None => None,
    }
}

/// What a submission leads to: the mode the wizard is in next, the work to be
/// done on an image file, if any, and what to tell the user, if anything.
#[derive(Clone, Debug, PartialEq, Eq)]
pub struct Decision {
    pub next: WizardMode,
    pub request: Option<Request>,
    pub notice: Option<Notice>,
}

/// The mathematical value of a [`Decision`].
pub struct DecisionView {
    pub next: WizardMode,
    pub request: Option<RequestView>,
    pub notice: Option<Notice>,
}

impl View for Decision {
    type V = DecisionView;

    open spec fn view(&self) -> DecisionView {
        DecisionView { next: self.next, request: request_view(self.request), notice: self.notice }
    }
}

impl DecisionView {
    /// The wizard goes to `next`; there is no work to do and nothing to tell.
    pub open spec fn go(next: WizardMode) -> DecisionView {
        DecisionView { next, request: None, notice: None }
    }

    /// The wizard stays in `mode` while the work of `request` is done.
    pub open spec fn ask(mode: WizardMode, request: RequestView) -> DecisionView {
        DecisionView { next: mode, request: Some(request), notice: None }
    }

    /// The submission is refused: the wizard goes to `next` and tells the user
    /// of `notice`.
    pub open spec fn refuse(next: WizardMode, notice: Notice) -> DecisionView {
        DecisionView { next, request: None, notice: Some(notice) }
    }
}

impl Decision {
    /// The wizard goes to `next`; there is no work to do and nothing to tell.
    pub fn go(next: WizardMode) -> (decision: Decision)
        ensures
            decision@ == DecisionView::go(next),
    {
        Decision { next, request: None, notice: None }
    }

    /// The wizard stays in `mode` while the work of `request` is done.
    pub fn ask(mode: WizardMode, request: Request) -> (decision: Decision)
        ensures
            decision@ == DecisionView::ask(mode, request@),
    {
        Decision { next: mode, request: Some(request), notice: None }
    }

    /// The submission is refused: the wizard goes to `next` and tells the user
    /// of `notice`.
    pub fn refuse(next: WizardMode, notice: Notice) -> (decision: Decision)
        ensures
            decision@ == DecisionView::refuse(next, notice),
    {
        Decision { next, request: None, notice: Some(notice) }
    }
}

/// Where the wizard stands once requested work has ended.
#[derive(Clone, Copy, Debug, PartialEq, Eq, Structural)]
pub struct Settlement {
    /// The mode the wizard is in next.
    pub next: WizardMode,
    /// Whether the request's path becomes the image to work on.
    pub adopt_path: bool,
    /// What to tell the user, if anything.
    pub notice: Option<Notice>,
}

/// The mode that the menu entry `text` names: the numbers 1 to 4, written as
/// unsigned decimal numbers with or without white space around them, name
/// `ImagePicker`, `ReSize`, `Grayscale` and `Blur`. Any other text names none.
pub open spec fn menu_choice(text: Seq<char>) -> Option<WizardMode> {
    match unsigned(trim(text)) {
        Some(number) => if number == 1 {
            Some(WizardMode::ImagePicker)
        } else if number == 2 {
            Some(WizardMode::ReSize)
        } else if number == 3 {
            Some(WizardMode::Grayscale)
        } else if number == 4 {
            Some(WizardMode::Blur)
        } else {
            None
        },
        None => None,
    }
}

/// What the submission of `text` leads to in `mode`, with `target` the image
/// chosen so far.
///
/// In `SelectMode` the text is a menu entry: a valid one leads to the mode it
/// names, any other leaves the wizard in the menu, and neither asks for work
/// or tells the user anything. In `ImagePicker` the text is a path to be
/// validated. The other three modes work on the chosen image, and without one
/// the submission is refused and the wizard returns to the menu. `ReSize`
/// takes the text as dimensions of the form `WxH`, resizes with the triangle
/// filter, and refuses any other text without leaving the mode; `Grayscale`
/// takes no notice of the text; `Blur` hands it on as the strength.
///
/// While work is asked for the mode stays as it is: where the wizard goes from
/// there is for [`settled`] to say.
pub open spec fn decide(mode: WizardMode, target: Option<Seq<char>>, text: Seq<char>) -> DecisionView {
    match mode {
        WizardMode::SelectMode => match menu_choice(text) {
            Some(chosen) => DecisionView::go(chosen),
            None => DecisionView::go(WizardMode::SelectMode),
        },
        WizardMode::ImagePicker => DecisionView::ask(mode, RequestView::Validate { path: text }),
        WizardMode::ReSize => match target {
            Some(path) => match dimensions(text) {
                Some((width, height)) => DecisionView::ask(
                    mode,
                    RequestView::Resize { path, width, height, filter: Filter::Triangle },
                ),
                None => DecisionView::refuse(mode, Notice::BadDimensions),
            },
            None => DecisionView::refuse(WizardMode::SelectMode, Notice::NoImageChosen),
        },
        WizardMode::Grayscale => match target {
            Some(path) => DecisionView::ask(mode, RequestView::Grayscale { path }),
            None => DecisionView::refuse(WizardMode::SelectMode, Notice::NoImageChosen),
        },
        WizardMode::Blur => match target {
            Some(path) => DecisionView::ask(mode, RequestView::Blur { path, strength: text }),
            None => DecisionView::refuse(WizardMode::SelectMode, Notice::NoImageChosen),
        },
    }
}

/// Where the wizard stands once the work of `request`, asked for in `mode`,
/// has ended with `outcome`.
///
/// Work that was done leads to the menu, and a validated path becomes the
/// image to work on. A blur strength that was of no use leaves the mode as it
/// is, and so does a path that did not validate: the user may try again.
/// An image that could not be opened for an operation, or not be written
/// back, leads to the menu. All but work that was done come with a notice.
pub open spec fn settled(mode: WizardMode, request: RequestView, outcome: Outcome) -> Settlement {
    match outcome {
        Outcome::Done => Settlement {
            next: WizardMode::SelectMode,
            adopt_path: request is Validate,
            notice: None,
        },
        Outcome::BadStrength => Settlement {
            next: mode,
            adopt_path: false,
            notice: Some(Notice::BadStrength),
        },
        Outcome::OpenFailed => Settlement {
            next: if request is Validate {
                mode
            } else {
                WizardMode::SelectMode
            },
            adopt_path: false,
            notice: Some(Notice::OpenFailed),
        },
        Outcome::SaveFailed => Settlement {
            next: WizardMode::SelectMode,
            adopt_path: false,
            notice: Some(Notice::SaveFailed),
        },
    }
}

/// Reads `text` as an entry of the menu.
pub fn parse_menu_choice(text: &str) -> (choice: Option<WizardMode>)
    ensures
        choice == menu_choice(text@),
{
    let chars = chars_of(text);
    let (from, to) = trimmed_bounds(&chars);
    match parse_unsigned_within(&chars, from, to) {
        Some(1) => Some(WizardMode::ImagePicker),
        Some(2) => Some(WizardMode::ReSize),
        Some(3) => Some(WizardMode::Grayscale),
        Some(4) => Some(WizardMode::Blur),
        Some(_) => None,
        None => None,
    }
}

/// Interprets the submitted `text` in `mode`, with `target` the image chosen
/// so far.
pub fn interpret(mode: WizardMode, target: &Option<String>, text: &str) -> (decision: Decision)
    ensures
        decision@ == decide(mode, target_view(*target), text@),
{
    match mode {
        WizardMode::SelectMode => match parse_menu_choice(text) {
            Some(chosen) => Decision::go(chosen),
            None => Decision::go(WizardMode::SelectMode),
        },
        WizardMode::ImagePicker => Decision::ask(mode, Request::Validate { path: text.to_owned() }),
        WizardMode::ReSize => match target {
            Some(path) => match parse_dimensions(text) {
                Some((width, height)) => Decision::ask(
                    mode,
                    Request::Resize { path: path.clone(), width, height, filter: Filter::Triangle },
                ),
                None => Decision::refuse(mode, Notice::BadDimensions),
            },
            None => Decision::refuse(WizardMode::SelectMode, Notice::NoImageChosen),
        },
        WizardMode::Grayscale => match target {
            Some(path) => Decision::ask(mode, Request::Grayscale { path: path.clone() }),
            None => Decision::refuse(WizardMode::SelectMode, Notice::NoImageChosen),
        },
        WizardMode::Blur => match target {
            Some(path) => Decision::ask(
                mode,
                Request::Blur { path: path.clone(), strength: text.to_owned() },
            ),
            None => Decision::refuse(WizardMode::SelectMode, Notice::NoImageChosen),
        },
    }
}

/// Says where the wizard stands once the work of `request`, asked for in
/// `mode`, has ended with `outcome`.
pub fn settle(mode: WizardMode, request: &Request, outcome: Outcome) -> (settlement: Settlement)
    ensures
        settlement == settled(mode, request@, outcome),
{
    let validating = match request {
        Request::Validate { .. } => true,
        Request::Resize { .. } => false,
        Request::Grayscale { .. } => false,
        Request::Blur { .. } => false,
    };
    match outcome {
        Outcome::Done => Settlement {
            next: WizardMode::SelectMode,
            adopt_path: validating,
            notice: None,
        },
        Outcome::BadStrength => Settlement {
            next: mode,
            adopt_path: false,
            notice: Some(Notice::BadStrength),
        },
        Outcome::OpenFailed => Settlement {
            next: if validating {
                mode
            } else {
                WizardMode::SelectMode
            },
            adopt_path: false,
            notice: Some(Notice::OpenFailed),
        },
        Outcome::SaveFailed => Settlement {
            next: WizardMode::SelectMode,
            adopt_path: false,
            notice: Some(Notice::SaveFailed),
        },
    }
}

/// In the menu every text has an answer, and none of them asks for work or
/// comes with a notice: a valid entry leads to the mode it names, which is
/// never the menu itself, and any other text leaves the wizard in the menu.
pub proof fn lemma_menu_is_total(target: Option<Seq<char>>, text: Seq<char>)
    ensures
        decide(WizardMode::SelectMode, target, text).request is None,
        decide(WizardMode::SelectMode, target, text).notice is None,
        menu_choice(text) is None ==> decide(WizardMode::SelectMode, target, text).next
            == WizardMode::SelectMode,
        menu_choice(text) matches Some(chosen) ==> chosen != WizardMode::SelectMode && decide(
            WizardMode::SelectMode,
            target,
            text,
        ).next == chosen,
{
}

/// Work on the chosen image is asked for only once an image has been chosen,
/// and then for that image: no request but one to validate a path names any
/// other file.
pub proof fn lemma_operations_name_the_target(
    mode: WizardMode,
    target: Option<Seq<char>>,
    text: Seq<char>,
)
    ensures
        decide(mode, target, text).request matches Some(request) ==> request is Validate
            || target == Some(request.path()),
{
}

/// A submission that asks for work leaves the mode as it is and tells the
/// user nothing yet.
pub proof fn lemma_asking_keeps_the_mode(mode: WizardMode, target: Option<Seq<char>>, text: Seq<char>)
    ensures
        decide(mode, target, text).request is Some ==> decide(mode, target, text).next == mode
            && decide(mode, target, text).notice is None,
{
}

/// Whatever was asked for and however it ended, the wizard is afterwards in
/// the menu or in the mode it was in, and only work that was done on a path to
/// validate changes the chosen image.
pub proof fn lemma_settled_in_menu_or_same_mode(
    mode: WizardMode,
    request: RequestView,
    outcome: Outcome,
)
    ensures
        settled(mode, request, outcome).next == WizardMode::SelectMode || settled(
            mode,
            request,
            outcome,
        ).next == mode,
        settled(mode, request, outcome).adopt_path <==> outcome is Done && request is Validate,
        settled(mode, request, outcome).notice is None <==> outcome is Done,
{
}

} // verus!
