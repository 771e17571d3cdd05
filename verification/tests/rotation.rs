use session_core::rotator::CredentialRotator;
use session_core::state::AppState;

fn tokens(names: &[&str]) -> Vec<String> {
    names.iter().map(|n| n.to_string()).collect()
}

#[test]
fn n_draws_return_each_credential_once_in_order_then_repeat() {
    for n in 1..=5usize {
        let names: Vec<String> = (0..n).map(|i| format!("token-{}", i)).collect();
        let mut pool = CredentialRotator::new();
        pool.configure(names.clone());
        assert_eq!(pool.len(), n);
        for expected in &names {
            assert_eq!(pool.next().as_ref(), Some(expected));
        }
        assert_eq!(pool.next().as_ref(), Some(&names[0]));
    }
}

#[test]
fn rotation_follows_position_modulo_pool_size() {
    let mut pool = CredentialRotator::new();
    pool.configure(tokens(&["a", "b", "c"]));
    let drawn: Vec<String> = (0..8).map(|_| pool.next().unwrap()).collect();
    assert_eq!(drawn, tokens(&["a", "b", "c", "a", "b", "c", "a", "b"]));
}

#[test]
fn empty_pool_always_signals_empty() {
    let mut pool = CredentialRotator::new();
    for _ in 0..4 {
        assert_eq!(pool.next(), None);
    }
    assert_eq!(pool.len(), 0);
    let mut state = AppState::new(None);
    assert_eq!(state.next_qwen_token(), None);
    assert_eq!(state.next_qwen_token(), None);
}

#[test]
fn first_draw_after_configuring_one_token_returns_it() {
    let mut state = AppState::new(None);
    assert_eq!(state.next_qwen_token(), None);
    state.set_qwen_token("t".to_string());
    assert_eq!(state.next_qwen_token(), Some("t".to_string()));
    assert_eq!(state.next_qwen_token(), Some("t".to_string()));
}

#[test]
fn reconfiguring_replaces_the_pool_and_resets_the_cursor() {
    let mut state = AppState::new(None);
    state.set_qwen_tokens(tokens(&["a", "b", "c"]));
    assert_eq!(state.next_qwen_token(), Some("a".to_string()));
    assert_eq!(state.next_qwen_token(), Some("b".to_string()));
    state.set_qwen_tokens(tokens(&["x", "y"]));
    assert_eq!(state.next_qwen_token(), Some("x".to_string()));
    assert_eq!(state.next_qwen_token(), Some("y".to_string()));
    assert_eq!(state.next_qwen_token(), Some("x".to_string()));
    state.set_qwen_token("only".to_string());
    assert_eq!(state.next_qwen_token(), Some("only".to_string()));
    state.set_qwen_tokens(Vec::new());
    assert_eq!(state.next_qwen_token(), None);
}

#[test]
fn startup_reads_one_credential_per_line() {
    let mut state = AppState::new(Some(" first \n\nsecond\r\n   \n"));
    assert_eq!(state.next_qwen_token(), Some("first".to_string()));
    assert_eq!(state.next_qwen_token(), Some("second".to_string()));
    assert_eq!(state.next_qwen_token(), Some("first".to_string()));
    let mut blank = AppState::new(Some("\n  \n"));
    assert_eq!(blank.next_qwen_token(), None);
}

#[test]
fn startup_state_is_empty() {
    let state = AppState::new(None);
    assert_eq!(state.thread_count(), 0);
    assert!(state.list_threads().is_empty());
    assert!(state.get_qwen_models().is_none());
    assert!(state.get_uploaded_file("x").is_none());
}
