//! The desktop shell's commands: greeting, the setup of the file server, and
//! the answers of the window commands.
use vstd::prelude::*;
use vstd::string::StringExecFns;
use crate::text::concat;
use crate::text::concat3;
use crate::paths::joined;
use crate::paths::path_join;
use crate::server::AppState;

verus! {

/// Port the file server listens on.
pub const SERVER_PORT: u16 = 8082;

/// The greeting for `name`.
pub fn greet(name: &str) -> (s: String)
    ensures
        s@ == "Hello, "@ + name@ + "! You've been greeted from Rust!"@,
{
    concat3("Hello, ", name, "! You've been greeted from Rust!")
}

/// The shared folder: "Anvel shared" inside the download folder, or the
/// error when there is no download folder.
pub fn shared_dir_path(download: Option<String>) -> (r: Result<String, String>)
    ensures
        download is None ==> (r matches Err(e) && e@ == "Failed to get download directory"@),
        download matches Some(d) ==> (r matches Ok(p) && p@ == joined(d@, "Anvel shared"@)),
{
    match download {
        None => Err(String::from_str("Failed to get download directory")),
        Some(d) => Ok(path_join(d.as_str(), "Anvel shared")),
    }
}

/// The error when the shared folder cannot be created.
pub fn shared_dir_error(err: &str) -> (m: String)
    ensures
        m@ == "Failed to create shared directory: "@ + err@,
{
    concat("Failed to create shared directory: ", err)
}

/// The server's folders, or the error for the first one missing (root,
/// then home, then downloads).
pub fn app_state_from(root: Option<String>, home: Option<String>, download: Option<String>, shared_dir: String) -> (r: Result<AppState, String>)
    ensures
        root is None ==> (r matches Err(e) && e@ == "Failed to get root directory"@),
        root is Some && home is None ==> (r matches Err(e) && e@ == "Failed to get home directory"@),
        root is Some && home is Some && download is None ==> (r matches Err(e) && e@ == "Failed to get download directory"@),
        root is Some && home is Some && download is Some ==> (r matches Ok(st) && {
            &&& st.root_dir@ == root->0@
            &&& st.home_dir@ == home->0@
            &&& st.download_dir@ == download->0@
            &&& st.shared_dir@ == shared_dir@
        }),
{
    let root_dir = match root {
        None => {
            return Err(String::from_str("Failed to get root directory"));
        },
        Some(r) => r,
    };
    let home_dir = match home {
        None => {
            return Err(String::from_str("Failed to get home directory"));
        },
        Some(h) => h,
    };
    let download_dir = match download {
        None => {
            return Err(String::from_str("Failed to get download directory"));
        },
        Some(d) => d,
    };
    Ok(AppState { root_dir, home_dir, download_dir, shared_dir })
}

/// A step of a window command that can fail.
#[derive(Clone, Copy, Debug, PartialEq, Eq, Structural)]
pub enum WindowOp {
    Focus,
    Show,
    Create,
    Close,
    Hide,
    Minimize,
    Maximize,
    Unmaximize,
    Resize,
    Move,
}

/// The start of the error of a failed window step.
pub open spec fn failure_prefix(op: WindowOp) -> Seq<char> {
    match op {
        WindowOp::Focus => "Failed to focus window: "@,
        WindowOp::Show => "Failed to show window: "@,
        WindowOp::Create => "Failed to create window: "@,
        WindowOp::Close => "Failed to close window: "@,
        WindowOp::Hide => "Failed to hide window: "@,
        WindowOp::Minimize => "Failed to minimize window: "@,
        WindowOp::Maximize => "Failed to maximize window: "@,
        WindowOp::Unmaximize => "Failed to unmaximize window: "@,
        WindowOp::Resize => "Failed to set window size: "@,
        WindowOp::Move => "Failed to set window position: "@,
    }
}

/// The error of a failed window step.
pub fn window_failure(op: WindowOp, err: &str) -> (m: String)
    ensures
        m@ == failure_prefix(op) + err@,
{
    let prefix = match op {
        WindowOp::Focus => "Failed to focus window: ",
        WindowOp::Show => "Failed to show window: ",
        WindowOp::Create => "Failed to create window: ",
        WindowOp::Close => "Failed to close window: ",
        WindowOp::Hide => "Failed to hide window: ",
        WindowOp::Minimize => "Failed to minimize window: ",
        WindowOp::Maximize => "Failed to maximize window: ",
        WindowOp::Unmaximize => "Failed to unmaximize window: ",
        WindowOp::Resize => "Failed to set window size: ",
        WindowOp::Move => "Failed to set window position: ",
    };
    concat(prefix, err)
}

/// The error when no window has the label.
pub fn window_not_found(label: &str) -> (m: String)
    ensures
        m@ == "Window '"@ + label@ + "' not found"@,
{
    concat3("Window '", label, "' not found")
}

/// How a window command ended.
#[derive(Clone, Copy, Debug, PartialEq, Eq, Structural)]
pub enum WindowDone {
    /// `open_window` found the window and focused it.
    AlreadyOpen,
    /// `open_window` created the window.
    Opened,
    /// `toggle_window` created the window.
    Toggled,
    /// `close_window` closed the window.
    Closed,
    /// `toggle_window` closed the window.
    ToggledOff,
    Hidden,
    Shown,
    Minimized,
    Maximized,
    Unmaximized,
}

/// The end of the answer of a window command.
pub open spec fn done_suffix(d: WindowDone) -> Seq<char> {
    match d {
        WindowDone::AlreadyOpen => "' already exists and was focused"@,
        WindowDone::Opened => "' opened successfully"@,
        WindowDone::Toggled => "' opened"@,
        WindowDone::Closed => "' closed successfully"@,
        WindowDone::ToggledOff => "' closed"@,
        WindowDone::Hidden => "' hidden"@,
        WindowDone::Shown => "' shown"@,
        WindowDone::Minimized => "' minimized"@,
        WindowDone::Maximized => "' maximized"@,
        WindowDone::Unmaximized => "' unmaximized"@,
    }
}

/// The answer of a window command that succeeded.
pub fn window_done(done: WindowDone, label: &str) -> (m: String)
    ensures
        m@ == "Window '"@ + label@ + done_suffix(done),
{
    let suffix = match done {
        WindowDone::AlreadyOpen => "' already exists and was focused",
        WindowDone::Opened => "' opened successfully",
        WindowDone::Toggled => "' opened",
        WindowDone::Closed => "' closed successfully",
        WindowDone::ToggledOff => "' closed",
        WindowDone::Hidden => "' hidden",
        WindowDone::Shown => "' shown",
        WindowDone::Minimized => "' minimized",
        WindowDone::Maximized => "' maximized",
        WindowDone::Unmaximized => "' unmaximized",
    };
    concat3("Window '", label, suffix)
}


/// The window commands of the desktop shell.
#[derive(Clone, Copy, Debug, PartialEq, Eq, Structural)]
pub enum WindowCommand {
    Open,
    Close,
    Toggle,
    Hide,
    Show,
    Minimize,
    Maximize,
    Unmaximize,
    Resize,
    Move,
}

/// What a window command does, as plain values.
pub enum PlanView {
    NotFound,
    Run { steps: Seq<WindowOp>, done: Option<WindowDone> },
}

/// What a window command does: fail because no window has the label, or run
/// these steps in order (stopping at the first failure) and answer with
/// `done` (resizing and moving answer with the new geometry instead).
#[derive(Debug)]
pub enum WindowPlan {
    NotFound,
    Run { steps: Vec<WindowOp>, done: Option<WindowDone> },
}

impl View for WindowPlan {
    type V = PlanView;

    open spec fn view(&self) -> PlanView {
        match self {
            WindowPlan::NotFound => PlanView::NotFound,
            WindowPlan::Run { steps, done } => PlanView::Run { steps: steps@, done: *done },
        }
    }
}

/// The plan of command `cmd` when a window with its label exists or not.
pub open spec fn plan_of(cmd: WindowCommand, exists: bool) -> PlanView {
    match cmd {
        WindowCommand::Open => if exists {
            PlanView::Run { steps: seq![WindowOp::Focus, WindowOp::Show], done: Some(WindowDone::AlreadyOpen) }
        } else {
            PlanView::Run { steps: seq![WindowOp::Create], done: Some(WindowDone::Opened) }
        },
        WindowCommand::Toggle => if exists {
            PlanView::Run { steps: seq![WindowOp::Close], done: Some(WindowDone::ToggledOff) }
        } else {
            PlanView::Run { steps: seq![WindowOp::Create], done: Some(WindowDone::Toggled) }
        },
        _ => if !exists {
            PlanView::NotFound
        } else {
            match cmd {
                WindowCommand::Close => PlanView::Run { steps: seq![WindowOp::Close], done: Some(WindowDone::Closed) },
                WindowCommand::Hide => PlanView::Run { steps: seq![WindowOp::Hide], done: Some(WindowDone::Hidden) },
                WindowCommand::Show => PlanView::Run { steps: seq![WindowOp::Show, WindowOp::Focus], done: Some(WindowDone::Shown) },
                WindowCommand::Minimize => PlanView::Run { steps: seq![WindowOp::Minimize], done: Some(WindowDone::Minimized) },
                WindowCommand::Maximize => PlanView::Run { steps: seq![WindowOp::Maximize], done: Some(WindowDone::Maximized) },
                WindowCommand::Unmaximize => PlanView::Run { steps: seq![WindowOp::Unmaximize], done: Some(WindowDone::Unmaximized) },
                WindowCommand::Resize => PlanView::Run { steps: seq![WindowOp::Resize], done: None },
                _ => PlanView::Run { steps: seq![WindowOp::Move], done: None },
            }
        },
    }
}

fn run_plan(steps: Vec<WindowOp>, done: Option<WindowDone>) -> (p: WindowPlan)
    ensures
        p@ == (PlanView::Run { steps: steps@, done }),
{
    WindowPlan::Run { steps, done }
}

/// Plans a window command.
pub fn window_plan(cmd: WindowCommand, exists: bool) -> (p: WindowPlan)
    ensures
        p@ == plan_of(cmd, exists),
{
    let mut steps: Vec<WindowOp> = Vec::new();
    match cmd {
        WindowCommand::Open => {
            if exists {
                steps.push(WindowOp::Focus);
                steps.push(WindowOp::Show);
                assert(steps@ =~= seq![WindowOp::Focus, WindowOp::Show]);
                run_plan(steps, Some(WindowDone::AlreadyOpen))
            } else {
                steps.push(WindowOp::Create);
                assert(steps@ =~= seq![WindowOp::Create]);
                run_plan(steps, Some(WindowDone::Opened))
            }
        },
        WindowCommand::Toggle => {
            if exists {
                steps.push(WindowOp::Close);
                assert(steps@ =~= seq![WindowOp::Close]);
                run_plan(steps, Some(WindowDone::ToggledOff))
            } else {
                steps.push(WindowOp::Create);
                assert(steps@ =~= seq![WindowOp::Create]);
                run_plan(steps, Some(WindowDone::Toggled))
            }
        },
        _ => {
            if !exists {
                return WindowPlan::NotFound;
            }
            let (first, second, done) = match cmd {
                WindowCommand::Close => (WindowOp::Close, None, Some(WindowDone::Closed)),
                WindowCommand::Hide => (WindowOp::Hide, None, Some(WindowDone::Hidden)),
                WindowCommand::Show => (WindowOp::Show, Some(WindowOp::Focus), Some(WindowDone::Shown)),
                WindowCommand::Minimize => (WindowOp::Minimize, None, Some(WindowDone::Minimized)),
                WindowCommand::Maximize => (WindowOp::Maximize, None, Some(WindowDone::Maximized)),
                WindowCommand::Unmaximize => (WindowOp::Unmaximize, None, Some(WindowDone::Unmaximized)),
                WindowCommand::Resize => (WindowOp::Resize, None, None),
                _ => (WindowOp::Move, None, None),
            };
            steps.push(first);
            if let Some(op) = second {
                steps.push(op);
                assert(steps@ =~= seq![first, op]);
            } else {
                assert(steps@ =~= seq![first]);
            }
            run_plan(steps, done)
        },
    }
}

} // verus!
