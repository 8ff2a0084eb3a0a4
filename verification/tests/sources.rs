use imvr::args::{ArgEventHandler, ArgStep, Args};
use imvr::background::BackgroundTasks;
use imvr::errors::{EventSendError, GpuContextError, LogicalError, WindowError};
use imvr::events::{Event, Key, KeyInput, WindowEvent};
use imvr::events::parse_key;
use imvr::message::{Msg, SurfaceId, TerminalMsg};
use imvr::prebuffer::{ImagePrebuffer, PrebufferError, PrebufferMessage, PrebufferStep};
use imvr::proxy::{ContextProxy, ProxyError, WindowProxy};
use imvr::reply::{ReturnAddress, ReturnerError};
use imvr::request::Request;
use imvr::terminal::{StdinEventHandler, TerminalState};
use imvr::transform::Size2;

#[test]
fn test_arg_source_pairs_paths_with_ids() {
    let args = vec![
        "prog_name".to_owned(),
        "a.png".to_owned(),
        "b.png".to_owned(),
    ];
    let mut source = ArgEventHandler::new_from_list(args);

    // First, one open per path.
    assert!(matches!(source.next(None), Some(ArgStep::Open)));
    assert!(matches!(source.next(None), Some(ArgStep::Open)));
    // No reply yet: wait.
    assert!(matches!(source.next(None), Some(ArgStep::Wait)));
    // The replies pair with the paths in order.
    match source.next(Some(1)) {
        Some(ArgStep::Show { path, window_id }) => {
            assert_eq!(path, "a.png");
            assert_eq!(window_id, 1);
        }
        other => panic!("expected a show step, got {:?}", other),
    }
    match source.next(Some(2)) {
        Some(ArgStep::Show { path, window_id }) => {
            assert_eq!(path, "b.png");
            assert_eq!(window_id, 2);
        }
        other => panic!("expected a show step, got {:?}", other),
    }
    // Every path served: the source is done.
    assert!(source.next(None).is_none());
}

#[test]
fn test_arg_source_empty_list() {
    let mut source = ArgEventHandler::new_from_list(Vec::new());
    assert!(source.next(None).is_none());
    let args = Args {
        files: vec!["a.png".to_owned()],
    };
    assert_eq!(args.files.len(), 1);
}

#[test]
fn test_parse_key() {
    assert!(matches!(parse_key(Key::Char('q')), Ok(Request::Exit)));
    assert!(matches!(parse_key(Key::Ctrl('c')), Ok(Request::Exit)));
    assert!(parse_key(Key::Char('l')).is_err());
    assert!(parse_key(Key::Ctrl('x')).is_err());
    assert!(parse_key(Key::Alt('q')).is_err());
}

#[test]
fn test_key_some_from() {
    let press_q = KeyInput {
        ch: Some('q'),
        ctrl: false,
        alt: false,
        pressed: true,
    };
    assert_eq!(Key::some_from(press_q), Some(Key::Char('q')));
    let release_q = KeyInput {
        pressed: false,
        ..press_q
    };
    assert_eq!(Key::some_from(release_q), None);
    let ctrl_c = KeyInput {
        ch: Some('c'),
        ctrl: true,
        alt: false,
        pressed: true,
    };
    assert_eq!(Key::some_from(ctrl_c), Some(Key::Ctrl('c')));
    let alt_f = KeyInput {
        ch: Some('f'),
        ctrl: false,
        alt: true,
        pressed: true,
    };
    assert_eq!(Key::some_from(alt_f), Some(Key::Alt('f')));
    let no_char = KeyInput {
        ch: None,
        ctrl: false,
        alt: false,
        pressed: true,
    };
    assert_eq!(Key::some_from(no_char), None);
}

#[test]
fn test_event_mapping() {
    // A resize becomes a resize-then-redraw batch, in that order.
    let r = Request::some_from(Event::Window {
        window_id: 3,
        event: WindowEvent::Resized(Size2 { x: 64, y: 32 }),
    });
    match r {
        Some(Request::Multiple(v)) => {
            assert_eq!(v.len(), 2);
            assert!(matches!(
                v[0],
                Request::Resize {
                    size: Size2 { x: 64, y: 32 },
                    window_id: 3
                }
            ));
            assert!(matches!(v[1], Request::Redraw { window_id: 3 }));
        }
        other => panic!("expected a batch, got {:?}", other),
    }

    assert!(matches!(
        Request::some_from(Event::Window {
            window_id: 3,
            event: WindowEvent::CloseRequested,
        }),
        Some(Request::CloseWindow { window_id: 3 })
    ));
    assert!(matches!(
        Request::some_from(Event::Window {
            window_id: 3,
            event: WindowEvent::Destroyed,
        }),
        Some(Request::CloseWindow { window_id: 3 })
    ));
    assert!(matches!(
        Request::some_from(Event::Window {
            window_id: 3,
            event: WindowEvent::RedrawRequested,
        }),
        Some(Request::Redraw { window_id: 3 })
    ));
    assert!(matches!(
        Request::some_from(Event::Window {
            window_id: 3,
            event: WindowEvent::KeyboardInput(KeyInput {
                ch: Some('q'),
                ctrl: false,
                alt: false,
                pressed: true,
            }),
        }),
        Some(Request::Exit)
    ));
    assert!(Request::some_from(Event::Window {
        window_id: 3,
        event: WindowEvent::Moved,
    })
    .is_none());
    assert!(Request::some_from(Event::Window {
        window_id: 3,
        event: WindowEvent::Focused(true),
    })
    .is_none());
    assert!(Request::some_from(Event::Window {
        window_id: 3,
        event: WindowEvent::Other,
    })
    .is_none());
    assert!(matches!(
        Request::some_from(Event::LoopExiting),
        Some(Request::Exit)
    ));
    assert!(matches!(
        Request::some_from(Event::User(Request::Exit)),
        Some(Request::Exit)
    ));
    assert!(Request::some_from(Event::NewEvents).is_none());
    assert!(Request::some_from(Event::Device).is_none());
    assert!(Request::some_from(Event::Suspended).is_none());
    assert!(Request::some_from(Event::Resumed).is_none());
    assert!(Request::some_from(Event::AboutToWait).is_none());
    assert!(Request::some_from(Event::MemoryWarning).is_none());
}

#[test]
fn test_proxy_deadlock_guard() {
    // The guard fails fast exactly on the owning thread.
    let proxy = ContextProxy::new(11);
    assert_eq!(
        proxy.check_thread(11),
        Err(ProxyError::CalledFromContextThread)
    );
    assert_eq!(proxy.check_thread(12), Ok(()));
    assert!(!ProxyError::CalledFromContextThread.message().is_empty());

    let wproxy = WindowProxy::new(5, proxy);
    assert_eq!(wproxy.window_id(), 5);
    assert_eq!(
        wproxy.check_thread(11),
        Err(ProxyError::CalledFromContextThread)
    );
    assert_eq!(wproxy.check_thread(7), Ok(()));
}

#[test]
fn test_terminal_raw_mode_discipline() {
    let mut term = TerminalState::new();
    assert!(term.enter_raw());
    // Entering twice warns instead of switching again.
    assert!(!term.enter_raw());
    assert!(term.leave_raw());
    assert!(!term.leave_raw());

    let mut stdin_source = StdinEventHandler::new();
    assert!(stdin_source.exit());
    assert!(!stdin_source.exit());
}

#[test]
fn test_prebuffer_discipline() {
    let mut pb = ImagePrebuffer::new();
    assert!(matches!(
        pb.handle_message(PrebufferMessage::LoadPath("a.png".to_owned())),
        Err(PrebufferError::NotInitialized)
    ));
    assert!(matches!(
        pb.handle_message(PrebufferMessage::InitGpu),
        Ok(PrebufferStep::Ready)
    ));
    assert!(matches!(
        pb.handle_message(PrebufferMessage::InitGpu),
        Err(PrebufferError::AlreadyInitialized)
    ));
    match pb.handle_message(PrebufferMessage::LoadPath("a.png".to_owned())) {
        Ok(PrebufferStep::Load(p)) => assert_eq!(p, "a.png"),
        other => panic!("expected a load step, got {:?}", other),
    }
    assert!(matches!(
        pb.handle_message(PrebufferMessage::Exit),
        Ok(PrebufferStep::Stop)
    ));
}

#[test]
fn test_reply_addresses() {
    // A file-descriptor address always fails, naming its descriptor.
    assert_eq!(
        ReturnAddress::File(5).send(3),
        Err(ReturnerError::FileError(5))
    );
    // A memory address delivers to a live receiver.
    let (tx, mut rx) = tokio::sync::oneshot::channel();
    assert_eq!(ReturnAddress::Memory(tx).send(42), Ok(()));
    assert_eq!(rx.try_recv(), Ok(42));
    // With the receiver gone, the send fails.
    let (tx, rx) = tokio::sync::oneshot::channel::<u64>();
    drop(rx);
    assert_eq!(
        ReturnAddress::Memory(tx).send(42),
        Err(ReturnerError::SenderError)
    );
    assert!(!ReturnerError::SenderError.message().is_empty());
    assert!(!ReturnerError::FileError(5).message().is_empty());
}

#[test]
fn test_messages() {
    assert_eq!(SurfaceId::Terminal.as_id(), None);
    assert_eq!(SurfaceId::Window(8).as_id(), Some(8));
    let (tx, _rx) = tokio::sync::oneshot::channel();
    let mut msg = Msg::open(tx);
    assert!(matches!(
        msg,
        Msg::OpenWindow {
            resp: Some(ReturnAddress::Memory(_))
        }
    ));
    assert!(matches!(msg.as_terminal(), Some(TerminalMsg::Nothing)));
}

#[test]
fn test_error_messages() {
    assert!(!EventSendError::Init.message().is_empty());
    assert!(!EventSendError::Poll.message().is_empty());
    assert!(!LogicalError.message().is_empty());
    assert!(!WindowError.message().is_empty());
    assert!(!GpuContextError.message().is_empty());
}

#[test]
fn test_background_task_registry() {
    let mut tasks = BackgroundTasks::new();
    tasks.register(10);
    tasks.register(11);
    tasks.register(12);
    // Nothing is done yet: cleaning drops nothing.
    assert!(tasks.clean().is_empty());
    tasks.mark_done(11);
    // Cleaning drops exactly the done worker.
    assert_eq!(tasks.clean(), vec![11]);
    // Unknown tokens are ignored.
    tasks.mark_done(99);
    assert!(tasks.clean().is_empty());
    // Shutdown joins the rest, oldest first, and empties the registry.
    assert_eq!(tasks.take_all_for_join(), vec![10, 12]);
    assert!(tasks.take_all_for_join().is_empty());
}
