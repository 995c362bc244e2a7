use mt5_rs::protocol::{
    compute_pipe_name, connection_refused, decode_error_message, decode_response_payload,
    discover_all_mt5_pipes, discover_all_terminals, discover_mt5_pipe, encode_request_frame,
    find_terminal64_paths, is_terminal_exe, parse_payload_len, pipe_name_wide, pipe_target,
    PipeState, DEFAULT_TIMEOUT_MS,
};
use mt5_rs::codec::encode_string;
use mt5_rs::Mt5Error;

const PATH: &str = r"C:\Program Files\MetaTrader 5\terminal64.exe";
const PIPE: &str = r"\\.\pipe\MT5.Terminal.781AEDD6B227148DB36F632AFAB710BBA441CCEA07ED9EF5BC7B94FAED25BD12";

fn protocol_string(s: &str) -> Vec<u8> {
    let units: Vec<u16> = s.encode_utf16().collect();
    let mut v = (units.len() as u32).to_le_bytes().to_vec();
    for u in units {
        v.extend_from_slice(&u.to_le_bytes());
    }
    v
}

#[test]
fn request_frame_holds_length_command_and_parameters() {
    let frame = encode_request_frame(190, &[]);
    assert_eq!(frame, vec![4, 0, 0, 0, 190, 0, 0, 0]);
    let frame = encode_request_frame(171, &[9, 8, 7]);
    assert_eq!(frame, vec![7, 0, 0, 0, 171, 0, 0, 0, 9, 8, 7]);
}

#[test]
fn payload_length_below_header_is_invalid() {
    assert_eq!(parse_payload_len(8u32.to_le_bytes()).unwrap(), 8);
    assert_eq!(parse_payload_len(300u32.to_le_bytes()).unwrap(), 300);
    match parse_payload_len(7u32.to_le_bytes()) {
        Err(Mt5Error::InvalidResponse(m)) => assert_eq!(m, "Payload too small: 7 bytes"),
        other => panic!("unexpected {:?}", other),
    }
}

#[test]
fn successful_payload_gives_the_data_after_the_header() {
    let mut payload = vec![190, 0, 0, 0, 1, 0, 0, 0];
    payload.extend_from_slice(&[5, 6, 7]);
    assert_eq!(decode_response_payload(190, &payload).unwrap(), vec![5, 6, 7]);
    let header_only = [190u8, 0, 0, 0, 1, 0, 0, 0];
    assert_eq!(decode_response_payload(190, &header_only).unwrap(), Vec::<u8>::new());
}

#[test]
fn failed_payload_is_a_refused_command() {
    let mut payload = vec![161, 0, 0, 0, 0, 0, 0, 0];
    payload.extend_from_slice(&10030i32.to_le_bytes());
    payload.extend_from_slice(&protocol_string("Unsupported filling mode"));
    match decode_response_payload(161, &payload) {
        Err(Mt5Error::CommandFailed { cmd, error_code, error }) => {
            assert_eq!(cmd, 161);
            assert_eq!(error_code, 10030);
            assert_eq!(error, "Unsupported filling mode");
        }
        other => panic!("unexpected {:?}", other),
    }
    // no data: code -1 and no message
    let bare = [161u8, 0, 0, 0, 0, 0, 0, 0];
    match decode_response_payload(161, &bare) {
        Err(Mt5Error::CommandFailed { error_code, error, .. }) => {
            assert_eq!(error_code, -1);
            assert_eq!(error, "");
        }
        other => panic!("unexpected {:?}", other),
    }
}

#[test]
fn error_message_is_cut_at_nul_and_end() {
    assert_eq!(decode_error_message(&protocol_string("Invalid volume")), "Invalid volume");
    assert_eq!(decode_error_message(&[1, 0]), "");
    // the count says 10 units but only 2 are there
    let mut short = 10u32.to_le_bytes().to_vec();
    short.extend_from_slice(&[0x4f, 0, 0x4b, 0]);
    assert_eq!(decode_error_message(&short), "OK");
    let mut nul = 3u32.to_le_bytes().to_vec();
    nul.extend_from_slice(&[0x41, 0, 0, 0, 0x42, 0]);
    assert_eq!(decode_error_message(&nul), "A");
}

#[test]
fn timeout_breaks_the_connection_for_good() {
    let mut state = PipeState::new(DEFAULT_TIMEOUT_MS);
    assert_eq!(state.timeout_ms(), 3000);
    assert!(state.timeout_enabled());
    assert!(!state.is_broken());
    assert!(state.ensure_usable().is_ok());
    let e = state.on_timeout();
    assert!(e.is_connection_lost());
    match e {
        Mt5Error::Timeout(m) => assert_eq!(m, "3000ms 内未收到终端响应；连接已标记失效，请重新 initialize"),
        other => panic!("unexpected {:?}", other),
    }
    assert!(state.is_broken());
    state.set_timeout_ms(0);
    assert!(!state.timeout_enabled());
    assert!(state.is_broken());
    match state.ensure_usable() {
        Err(Mt5Error::ConnectionFailed(m)) => {
            assert_eq!(m, "连接已失效（此前发生过超时），请重新 initialize")
        }
        other => panic!("unexpected {:?}", other),
    }
    assert!(PipeState::new(0).ensure_usable().is_ok());
}

#[test]
fn pipe_name_is_hash_of_lowercased_path() {
    assert_eq!(compute_pipe_name(PATH), PIPE);
    // the path's case does not matter
    assert_eq!(compute_pipe_name(&PATH.to_uppercase()), PIPE);
    assert_eq!(compute_pipe_name(&PATH.to_lowercase()), PIPE);
}

#[test]
fn pipe_name_wide_ends_with_nul() {
    assert_eq!(pipe_name_wide("ab"), vec![0x61, 0x62, 0]);
    assert_eq!(pipe_name_wide(""), vec![0]);
}

#[test]
fn pipe_target_requires_a_name() {
    assert_eq!(pipe_target(Some(PIPE)).unwrap(), PIPE);
    match pipe_target(None) {
        Err(Mt5Error::ConnectionFailed(m)) => {
            assert_eq!(m, "Pipe name must be provided. Use initialize(Some(\"pipe_name\"))")
        }
        other => panic!("unexpected {:?}", other),
    }
    match connection_refused("x") {
        Mt5Error::ConnectionFailed(m) => assert_eq!(m, "Failed to connect to pipe: x"),
        other => panic!("unexpected {:?}", other),
    }
}

#[test]
fn discovery_keeps_responding_terminals_in_order() {
    let paths = vec![PATH.to_string(), r"D:\MT5\terminal64.exe".to_string(), r"E:\X\terminal64.exe".to_string()];
    let found = discover_all_terminals(Ok(paths.clone()), &vec![true, false, true]);
    assert_eq!(found.len(), 2);
    assert_eq!(found[0], (PATH.to_string(), PIPE.to_string()));
    assert_eq!(found[1].0, r"E:\X\terminal64.exe");
    assert_eq!(found[1].1, compute_pipe_name(r"E:\X\terminal64.exe"));
    let pipes = discover_all_mt5_pipes(Ok(paths.clone()), &vec![true, false, true]);
    assert_eq!(pipes, vec![found[0].1.clone(), found[1].1.clone()]);
    // a shorter answer list leaves the rest out
    assert_eq!(discover_all_terminals(Ok(paths.clone()), &vec![false]).len(), 0);
    assert_eq!(discover_all_terminals(Err(Mt5Error::NotInitialized), &vec![true]).len(), 0);
    assert_eq!(discover_all_mt5_pipes(Err(Mt5Error::NotInitialized), &vec![true]).len(), 0);
    assert_eq!(discover_mt5_pipe(Ok(paths.clone()), &vec![false, true]), compute_pipe_name(r"D:\MT5\terminal64.exe"));
    assert_eq!(discover_mt5_pipe(Ok(paths), &vec![true, true]), PIPE);
}

#[test]
fn terminal_executable_name_is_matched_without_case_and_padding() {
    let mut name: Vec<u16> = "Terminal64.EXE".encode_utf16().collect();
    name.resize(260, 0);
    assert!(is_terminal_exe(&name));
    let plain: Vec<u16> = "terminal64.exe".encode_utf16().collect();
    assert!(is_terminal_exe(&plain));
    let other: Vec<u16> = "terminal.exe".encode_utf16().collect();
    assert!(!is_terminal_exe(&other));
    let mut trailing: Vec<u16> = "terminal64.exe x".encode_utf16().collect();
    trailing.push(0);
    assert!(!is_terminal_exe(&trailing));
}

#[test]
fn terminal_paths_are_deduplicated_in_first_order() {
    let found = vec!["b".to_string(), "a".to_string(), "b".to_string(), "c".to_string(), "a".to_string()];
    assert_eq!(find_terminal64_paths(Some(found)).unwrap(), vec!["b", "a", "c"]);
    match find_terminal64_paths(Some(Vec::new())) {
        Err(Mt5Error::ConnectionFailed(m)) => assert_eq!(m, "No running terminal64.exe found"),
        other => panic!("unexpected {:?}", other),
    }
    match find_terminal64_paths(None) {
        Err(Mt5Error::ConnectionFailed(m)) => assert_eq!(m, "Failed to create process snapshot"),
        other => panic!("unexpected {:?}", other),
    }
}

#[test]
fn error_message_decodes_an_encoded_string() {
    for s in ["Not enough money", "", "余额不足", "\u{1F600} ok"] {
        assert_eq!(decode_error_message(&encode_string(s)), s);
    }
}
