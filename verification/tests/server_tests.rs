use anvel::commands::app_state_from;
use anvel::commands::greet;
use anvel::commands::shared_dir_error;
use anvel::commands::shared_dir_path;
use anvel::commands::window_done;
use anvel::commands::window_failure;
use anvel::commands::window_not_found;
use anvel::commands::window_plan;
use anvel::commands::WindowCommand;
use anvel::commands::WindowDone;
use anvel::commands::WindowOp;
use anvel::commands::WindowPlan;
use anvel::commands::SERVER_PORT;
use anvel::server::directory_object;
use anvel::server::echo_reply;
use anvel::server::ip_content;
use anvel::server::ping_failure_message;
use anvel::server::pong_notice_body;
use anvel::server::pong_url;
use anvel::server::read_error_message;
use anvel::server::received_file_path;
use anvel::server::resolve_directory;
use anvel::server::send_failure_message;
use anvel::server::AppState;
use anvel::server::SpecialDirs;
use anvel::server::WsFrame;

fn state() -> AppState {
    AppState {
        root_dir: "/".to_string(),
        home_dir: "/home/u".to_string(),
        download_dir: "/home/u/Downloads".to_string(),
        shared_dir: "/home/u/Downloads/Anvel shared".to_string(),
    }
}

fn special() -> SpecialDirs {
    SpecialDirs {
        music: "/home/u/Music".to_string(),
        desktop: "/home/u/Desktop".to_string(),
        pictures: "/home/u/Pictures".to_string(),
        videos: "/home/u/Videos".to_string(),
        documents: "/home/u/Documents".to_string(),
    }
}

#[test]
fn directory_aliases() {
    let (st, sp) = (state(), special());
    assert_eq!(resolve_directory("root", &st, &sp), "/");
    assert_eq!(resolve_directory("Music", &st, &sp), "/home/u/Music");
    assert_eq!(resolve_directory("Desktop", &st, &sp), "/home/u/Desktop");
    assert_eq!(resolve_directory("Pictures", &st, &sp), "/home/u/Pictures");
    assert_eq!(resolve_directory("Videos", &st, &sp), "/home/u/Videos");
    assert_eq!(resolve_directory("Downloads", &st, &sp), "/home/u/Downloads");
    assert_eq!(resolve_directory("Documents", &st, &sp), "/home/u/Documents");
    assert_eq!(resolve_directory("home", &st, &sp), "/home/u");
    assert_eq!(resolve_directory("Anvel shared", &st, &sp), "/home/u/Downloads/Anvel shared");
    assert_eq!(resolve_directory("/etc", &st, &sp), "/etc");
    assert_eq!(resolve_directory("music", &st, &sp), "music");
}

#[test]
fn directory_objects() {
    let o = directory_object("/home/u", "a.tar.gz", true);
    assert_eq!(o.root, "/home/u");
    assert_eq!(o.name, "a.tar.gz");
    assert_eq!(o.path, "/home/u/a.tar.gz");
    assert!(o.metadata.is_file);
    assert_eq!(o.metadata.file_extension.as_deref(), Some("gz"));
    let o = directory_object("/home/u", "README", true);
    assert_eq!(o.metadata.file_extension.as_deref(), Some("no file extension"));
    let o = directory_object("/home/u", "src.d", false);
    assert_eq!(o.metadata.file_extension.as_deref(), Some("folder"));
}

#[test]
fn api_texts() {
    assert_eq!(read_error_message("No such file or directory (os error 2)", "/x"), "No such file or directory (os error 2) with the name '/x'");
    assert_eq!(pong_url("192.168.1.4", "192.168.1.9"), "http://192.168.1.4:80/api/pong/192.168.1.9");
    assert_eq!(ping_failure_message("404 Not Found"), "Failed to ping. Status code: 404 Not Found");
    assert_eq!(pong_notice_body("10.0.0.3"), "Device '10.0.0.3' can now send you files.");
    assert_eq!(received_file_path("/s", "f.txt"), "/s/f.txt");
    assert_eq!(
        send_failure_message("f.txt", "http://h/api/receive", "500 Internal Server Error"),
        "Failed to send 'f.txt' to 'http://h/api/receive'.  Status code: 500 Internal Server Error"
    );
}

#[test]
fn ip_contents() {
    let c = ip_content("10.0.0.2".to_string(), Some(Some("1.2.3.4".to_string())));
    assert_eq!((c.internal.as_str(), c.external.as_str()), ("10.0.0.2", "1.2.3.4"));
    assert_eq!(ip_content("10.0.0.2".to_string(), Some(None)).external, "Unknown");
    assert_eq!(ip_content("10.0.0.2".to_string(), None).external, "No internet");
}

#[test]
fn websocket_echo() {
    assert!(matches!(echo_reply(Some(WsFrame::Text("hi".to_string()))), Some(WsFrame::Text(t)) if t == "hi"));
    assert!(matches!(echo_reply(Some(WsFrame::Binary(vec![1, 2]))), Some(WsFrame::Binary(b)) if b == vec![1, 2]));
    assert!(echo_reply(Some(WsFrame::Other)).is_none());
    assert!(echo_reply(None).is_none());
}

#[test]
fn greeting_and_setup() {
    assert_eq!(greet("Ada"), "Hello, Ada! You've been greeted from Rust!");
    assert_eq!(SERVER_PORT, 8082);
    assert_eq!(shared_dir_path(Some("/home/u/Downloads".to_string())), Ok("/home/u/Downloads/Anvel shared".to_string()));
    assert_eq!(shared_dir_path(None), Err("Failed to get download directory".to_string()));
    assert_eq!(shared_dir_error("denied"), "Failed to create shared directory: denied");
    let s = |x: &str| Some(x.to_string());
    assert_eq!(app_state_from(None, s("/h"), s("/d"), "/sh".to_string()).unwrap_err(), "Failed to get root directory");
    assert_eq!(app_state_from(s("/"), None, s("/d"), "/sh".to_string()).unwrap_err(), "Failed to get home directory");
    assert_eq!(app_state_from(s("/"), s("/h"), None, "/sh".to_string()).unwrap_err(), "Failed to get download directory");
    let st = app_state_from(s("/"), s("/h"), s("/d"), "/sh".to_string()).unwrap();
    assert_eq!((st.root_dir.as_str(), st.home_dir.as_str(), st.download_dir.as_str(), st.shared_dir.as_str()), ("/", "/h", "/d", "/sh"));
}

#[test]
fn window_texts() {
    assert_eq!(window_not_found("settings"), "Window 'settings' not found");
    assert_eq!(window_failure(WindowOp::Focus, "e"), "Failed to focus window: e");
    assert_eq!(window_failure(WindowOp::Resize, "e"), "Failed to set window size: e");
    assert_eq!(window_failure(WindowOp::Move, "e"), "Failed to set window position: e");
    assert_eq!(window_done(WindowDone::AlreadyOpen, "w"), "Window 'w' already exists and was focused");
    assert_eq!(window_done(WindowDone::Opened, "w"), "Window 'w' opened successfully");
    assert_eq!(window_done(WindowDone::Closed, "w"), "Window 'w' closed successfully");
    assert_eq!(window_done(WindowDone::ToggledOff, "w"), "Window 'w' closed");
    assert_eq!(window_done(WindowDone::Unmaximized, "w"), "Window 'w' unmaximized");
}

#[test]
fn window_plans() {
    match window_plan(WindowCommand::Open, true) {
        WindowPlan::Run { steps, done } => {
            assert_eq!(steps, vec![WindowOp::Focus, WindowOp::Show]);
            assert_eq!(done, Some(WindowDone::AlreadyOpen));
        },
        other => panic!("unexpected {:?}", other),
    }
    match window_plan(WindowCommand::Toggle, false) {
        WindowPlan::Run { steps, done } => {
            assert_eq!(steps, vec![WindowOp::Create]);
            assert_eq!(done, Some(WindowDone::Toggled));
        },
        other => panic!("unexpected {:?}", other),
    }
    match window_plan(WindowCommand::Show, true) {
        WindowPlan::Run { steps, .. } => assert_eq!(steps, vec![WindowOp::Show, WindowOp::Focus]),
        other => panic!("unexpected {:?}", other),
    }
    match window_plan(WindowCommand::Resize, true) {
        WindowPlan::Run { steps, done } => {
            assert_eq!(steps, vec![WindowOp::Resize]);
            assert_eq!(done, None);
        },
        other => panic!("unexpected {:?}", other),
    }
    for cmd in [WindowCommand::Close, WindowCommand::Hide, WindowCommand::Show, WindowCommand::Minimize, WindowCommand::Maximize, WindowCommand::Unmaximize, WindowCommand::Resize, WindowCommand::Move] {
        assert!(matches!(window_plan(cmd, false), WindowPlan::NotFound));
    }
}
