use jellium_platform::x11::proxy_env::bind_listeners;
use jellium_platform::x11::proxy_env::has_port;
use jellium_platform::x11::proxy_env::provision_auth;
use jellium_platform::x11::proxy_env::proxy_display;
use jellium_platform::x11::proxy_env::real_display;
use jellium_platform::x11::proxy_env::restore_real_display;
use jellium_platform::x11::proxy_env::socket_name;
use jellium_platform::x11::proxy_env::start;
use jellium_platform::x11::proxy_env::start_needed;
use jellium_platform::x11::proxy_env::stop;
use jellium_platform::x11::proxy_env::upstream_addresses;
use jellium_platform::x11::proxy_env::write_xauth_entry;
use jellium_platform::x11::proxy_env::BindNext;
use jellium_platform::x11::proxy_env::Display;
use jellium_platform::x11::proxy_env::DisplayEpoch;
use jellium_platform::x11::proxy_env::EnvChange;
use jellium_platform::x11::proxy_env::ProxyState;
use jellium_platform::x11::proxy_env::StartNext;
use jellium_platform::x11::proxy_env::StartStep;
use jellium_platform::x11::proxy_env::UpstreamAddr;
use jellium_platform::x11::proxy_env::FAMILY_LOCAL;
use x11rb::reexports::x11rb_protocol::parse_display::parse_display;

/// A display string, parsed.
fn display(text: &str) -> Display {
    let d = parse_display(Some(text)).unwrap();
    Display { host: d.host, protocol: d.protocol, display: d.display, screen: d.screen }
}

fn shown(d: &Display) -> Vec<String> {
    upstream_addresses(d)
        .into_iter()
        .map(|a| match a {
            UpstreamAddr::Abstract(n) => format!("abstract {n}"),
            UpstreamAddr::Path(p) => p,
            UpstreamAddr::Tcp(h, p) => format!("{h}:{p}"),
        })
        .collect()
}

#[test]
fn local_servers_are_tried_over_sockets_first() {
    assert_eq!(shown(&display(":7")), vec!["abstract 7", "/tmp/.X11-unix/X7", "localhost:6007"]);
    let named = Display { host: String::from("unix"), protocol: None, display: 60000, screen: 0 };
    assert_eq!(shown(&named), vec!["abstract 60000", "/tmp/.X11-unix/X60000"]);
    assert_eq!(shown(&display("unix/host:1")), vec!["abstract 1", "/tmp/.X11-unix/X1"]);
    assert_eq!(shown(&display("far.example:2.1")), vec!["far.example:6002"]);
    assert_eq!(shown(&display("tcp/far.example:2")), vec!["far.example:6002"]);
    let d = Display {
        host: String::new(),
        protocol: Some(String::from("tcp")),
        display: 3,
        screen: 0,
    };
    assert_eq!(shown(&d), Vec::<String>::new());
}

#[test]
fn the_proxy_has_its_own_display() {
    assert_eq!(proxy_display(64, 0), ":64");
    assert_eq!(proxy_display(1023, 2), ":1023.2");
    assert_eq!(socket_name(64), "/tmp/.X11-unix/X64");
}

fn running(display: Option<&str>, xauth: Option<&str>, own_xauth: bool) -> Option<ProxyState> {
    Some(ProxyState {
        orig_display: display.map(String::from),
        orig_xauth: xauth.map(String::from),
        own_xauth,
        epoch: DisplayEpoch::Proxy,
    })
}

fn change(c: &EnvChange) -> Option<Option<&str>> {
    match c {
        EnvChange::Assign(s) => Some(Some(s)),
        EnvChange::Remove => Some(None),
        EnvChange::Leave => None,
    }
}

#[test]
fn the_environment_is_restored_once() {
    let mut st = running(Some(":0"), Some("/a"), true);
    assert_eq!(real_display(&st).as_deref(), Some(":0"));
    let (d, x) = restore_real_display(&mut st);
    assert_eq!((change(&d), change(&x)), (Some(Some(":0")), Some(Some("/a"))));
    assert_eq!(real_display(&st), None);
    let (d, x) = restore_real_display(&mut st);
    assert_eq!((change(&d), change(&x)), (None, None));

    let mut st = running(None, None, true);
    let (d, x) = restore_real_display(&mut st);
    assert_eq!((change(&d), change(&x)), (Some(None), Some(None)));
    let mut st = running(None, None, false);
    let (d, x) = restore_real_display(&mut st);
    assert_eq!((change(&d), change(&x)), (Some(None), None));
    let mut none = None;
    let (d, x) = restore_real_display(&mut none);
    assert_eq!((change(&d), change(&x)), (None, None));
    assert!(stop(&mut st).is_some());
    assert!(stop(&mut st).is_none());
}

#[test]
fn authority_entries_have_prefixed_blocks() {
    let mut out = vec![9];
    write_xauth_entry(&mut out, 0x102, b"ho", b"7", b"", b"xyz");
    assert_eq!(
        out,
        [9, 1, 2, 0, 2, b'h', b'o', 0, 1, b'7', 0, 0, 0, 3, b'x', b'y', b'z']
    );
    let mut long = Vec::new();
    write_xauth_entry(&mut long, FAMILY_LOCAL, &[0; 300], b"", b"", b"");
    assert_eq!(&long[..4], &[1, 0, 1, 44]);
}

#[test]
fn the_cookie_is_filed_under_both_displays() {
    let file = provision_auth(b"box", 0, 64, b"MIT", &[1, 2]);
    let mut want = Vec::new();
    write_xauth_entry(&mut want, FAMILY_LOCAL, b"box", b"64", b"MIT", &[1, 2]);
    write_xauth_entry(&mut want, FAMILY_LOCAL, b"box", b"0", b"MIT", &[1, 2]);
    assert_eq!(file, want);
}

#[test]
fn a_failed_start_leaves_nothing_behind() {
    let mut step = StartStep::ParseDisplay;
    let mut unlinks = vec![];
    loop {
        let StartNext::Fail { unlink_socket } = step.next(false) else {
            panic!("a failed step went on");
        };
        unlinks.push(unlink_socket);
        match step.next(true) {
            StartNext::Go(next) => step = next,
            end => {
                assert_eq!(end, StartNext::Repoint);
                break;
            }
        }
    }
    assert_eq!(unlinks, vec![false, false, false, true, true]);
    assert_eq!(bind_listeners(64, true, false), BindNext::Try(65));
    assert_eq!(bind_listeners(65, false, true), BindNext::Try(66));
    assert_eq!(bind_listeners(66, true, true), BindNext::Bound(66));
    assert_eq!(bind_listeners(1023, false, false), BindNext::Exhausted);
}

#[test]
fn starting_and_restoring_leaves_the_environment_alone() {
    let display = Some(String::from(":0.1"));
    for (authority, own) in [(None, None), (None, Some("/run/x")), (Some("/a"), Some("/run/x"))] {
        let mut st = None;
        assert!(start_needed(&st));
        let (d, x) = start(
            &mut st,
            display.clone(),
            authority.map(String::from),
            64,
            1,
            own.map(String::from),
        );
        assert!(!start_needed(&st));
        assert_eq!(change(&d), Some(Some(":64.1")));
        assert_eq!(change(&x), own.map(Some));
        let (d, x) = restore_real_display(&mut st);
        assert_eq!(change(&d), Some(Some(":0.1")));
        let touched = own.is_some() || authority.is_some();
        assert_eq!(change(&x), if touched { Some(authority) } else { None });
    }
}

#[test]
fn only_network_displays_need_a_port() {
    assert!(has_port(&display(":0")) && has_port(&display("host:59535")));
    assert!(!has_port(&display(":59536")) && !has_port(&display("host:59536")));
    let local = |protocol: Option<&str>, host: &str| Display {
        host: String::from(host),
        protocol: protocol.map(String::from),
        display: 60000,
        screen: 0,
    };
    assert!(has_port(&local(Some("unix"), "")) && has_port(&local(Some("unix"), "host")));
    assert!(has_port(&local(None, "unix")) && has_port(&local(Some("tcp"), "")));
    assert!(!has_port(&local(Some("tcp"), "host")) && !has_port(&local(None, "")));
}
