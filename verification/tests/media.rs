use session_core::artifacts::Artifact;
use session_core::error::ErrorKind;
use session_core::media::{
    generate_image, generate_video, local_copy_directory, local_copy_path, plan_media,
    MediaAction, MediaEvent,
    MediaFailure, MediaKind, MediaPlan, MediaRequest,
};
use session_core::upload::{
    is_file_field, upload_file_for_qwen, UploadAction, UploadEvent, UploadFailure, UploadedFile,
};
use session_core::orchestrator::ProviderReply;
use session_core::state::AppState;
use session_core::types::{Role, ThreadMessage};

fn media_request(thread_id: Option<&str>, download: bool) -> MediaRequest {
    MediaRequest {
        prompt: "a red fox".to_string(),
        size: Some("1:1".to_string()),
        model: "qwen-image".to_string(),
        thread_id: thread_id.map(|s| s.to_string()),
        download,
    }
}

fn media_plan(download: bool) -> MediaPlan {
    MediaPlan {
        token: "a".to_string(),
        prompt: "a red fox".to_string(),
        size: Some("1:1".to_string()),
        model: "qwen-image".to_string(),
        continuation: None,
        download,
    }
}

fn generated() -> ProviderReply {
    ProviderReply {
        content: "https://cdn.example/fox.png".to_string(),
        chat_id: Some("chat-1".to_string()),
        response_id: "resp-1".to_string(),
    }
}

#[test]
fn file_field_is_named_file_or_unnamed() {
    assert!(is_file_field(Some("file")));
    assert!(is_file_field(None));
    assert!(!is_file_field(Some("File")));
    assert!(!is_file_field(Some("files")));
    assert!(!is_file_field(Some("")));
    assert!(!is_file_field(Some("purpose")));
}

#[test]
fn upload_draws_a_credential_first() {
    let mut state = AppState::new(Some("a\nb"));
    match upload_file_for_qwen(&mut state, UploadEvent::Requested) {
        UploadAction::Receive(token) => assert_eq!(token, "a"),
        other => panic!("unexpected {:?}", other),
    }
    assert_eq!(state.next_qwen_token().as_deref(), Some("b"));
    let mut empty = AppState::new(None);
    match upload_file_for_qwen(&mut empty, UploadEvent::Requested) {
        UploadAction::Reject(e) => {
            assert_eq!(e.kind, ErrorKind::BadRequest);
            assert_eq!(
                e.message,
                "Qwen token not configured. Please configure it via POST /v1/config/qwen"
            );
        }
        other => panic!("unexpected {:?}", other),
    }
}

#[test]
fn upload_places_the_file_under_tmp() {
    let mut state = AppState::new(None);
    let named = UploadedFile { file_name: Some("cat.png".to_string()), data: vec![1, 2, 3] };
    match upload_file_for_qwen(&mut state, UploadEvent::Received(Some(named))) {
        UploadAction::Send(path, data) => {
            assert_eq!(path, "/tmp/cat.png");
            assert_eq!(data, vec![1, 2, 3]);
        }
        other => panic!("unexpected {:?}", other),
    }
    let unnamed = UploadedFile { file_name: None, data: Vec::new() };
    match upload_file_for_qwen(&mut state, UploadEvent::Received(Some(unnamed))) {
        UploadAction::Send(path, data) => {
            assert_eq!(path, "/tmp/unknown");
            assert!(data.is_empty());
        }
        other => panic!("unexpected {:?}", other),
    }
}

#[test]
fn upload_without_file_is_a_bad_request() {
    let mut state = AppState::new(None);
    match upload_file_for_qwen(&mut state, UploadEvent::Received(None)) {
        UploadAction::Reject(e) => {
            assert_eq!(e.kind, ErrorKind::BadRequest);
            assert_eq!(e.message, "No file provided in multipart request");
        }
        other => panic!("unexpected {:?}", other),
    }
}

#[test]
fn uploaded_artifact_is_cached_and_shown() {
    let mut state = AppState::new(None);
    let artifact = Artifact {
        id: "file-9".to_string(),
        name: "cat.png".to_string(),
        size: 2048,
        file_class: "vision".to_string(),
        reference: "https://files.example/file-9".to_string(),
    };
    match upload_file_for_qwen(&mut state, UploadEvent::Uploaded(artifact)) {
        UploadAction::Done(shown) => {
            assert_eq!(shown.id, "file-9");
            assert_eq!(shown.name, "cat.png");
            assert_eq!(shown.size, 2048);
            assert_eq!(shown.file_class, "vision");
        }
        other => panic!("unexpected {:?}", other),
    }
    let cached = state.get_uploaded_file("file-9").unwrap();
    assert_eq!(cached.reference, "https://files.example/file-9");
    assert_eq!(cached.size, 2048);
}

#[test]
fn upload_failures_are_internal_with_a_stage_prefix() {
    let cases = [
        (UploadFailure::Connect, "Could not create Qwen client: io"),
        (UploadFailure::Multipart, "Multipart error: io"),
        (UploadFailure::Read, "Failed to read file: io"),
        (UploadFailure::Save, "Failed to save file: io"),
        (UploadFailure::Upload, "File upload failed: io"),
    ];
    for (stage, expected) in cases {
        let mut state = AppState::new(None);
        match upload_file_for_qwen(&mut state, UploadEvent::Failed(stage, "io".to_string())) {
            UploadAction::Reject(e) => {
                assert_eq!(e.kind, ErrorKind::Internal);
                assert_eq!(e.message, expected);
            }
            other => panic!("unexpected {:?}", other),
        }
    }
}

#[test]
fn media_plan_without_thread_has_no_continuation() {
    let mut state = AppState::new(Some("a\nb"));
    let plan = plan_media(&mut state, &media_request(None, false)).unwrap();
    assert_eq!(plan.token, "a");
    assert_eq!(plan.prompt, "a red fox");
    assert_eq!(plan.size.as_deref(), Some("1:1"));
    assert_eq!(plan.model, "qwen-image");
    assert!(plan.continuation.is_none());
    assert!(!plan.download);
    assert!(plan_media(&mut state, &media_request(None, true)).unwrap().download);
    assert_eq!(state.next_qwen_token().as_deref(), Some("a"));
}

#[test]
fn media_plan_continues_from_the_newest_message_of_the_thread() {
    let mut state = AppState::new(Some("a"));
    let messages = vec![
        ThreadMessage { role: Role::User, content: "first".to_string(), created_at: None },
        ThreadMessage { role: Role::Assistant, content: "newest".to_string(), created_at: None },
    ];
    state.create_thread_as("t".to_string(), 1, messages, None, "qwen-max");
    state.create_thread_as("empty".to_string(), 1, Vec::new(), None, "qwen-max");
    let plan = plan_media(&mut state, &media_request(Some("t"), false)).unwrap();
    let c = plan.continuation.unwrap();
    assert_eq!(c.chat_id, "t");
    assert_eq!(c.model_id, "qwen-image");
    assert_eq!(c.parent_id, "newest");
    let plan = plan_media(&mut state, &media_request(Some("empty"), false)).unwrap();
    assert!(plan.continuation.is_none());
}

#[test]
fn media_plan_fails_without_credential_or_thread() {
    let mut empty = AppState::new(None);
    let e = plan_media(&mut empty, &media_request(Some("missing"), false)).unwrap_err();
    assert_eq!(e.kind, ErrorKind::BadRequest);
    assert_eq!(
        e.message,
        "Qwen token not configured. Please configure it via POST /v1/config/qwen"
    );
    let mut state = AppState::new(Some("a\nb"));
    match generate_image(&mut state, MediaEvent::Requested(media_request(Some("missing"), false))) {
        MediaAction::Reject(e) => {
            assert_eq!(e.kind, ErrorKind::NotFound);
            assert_eq!(e.message, "Thread not found");
        }
        other => panic!("unexpected {:?}", other),
    }
    assert_eq!(state.next_qwen_token().as_deref(), Some("b"));
}

#[test]
fn generated_media_is_shown_at_once_without_download() {
    let mut state = AppState::new(None);
    match generate_image(&mut state, MediaEvent::Generated(media_plan(false), generated())) {
        MediaAction::Done(shown) => {
            assert_eq!(shown.url, "https://cdn.example/fox.png");
            assert_eq!(shown.prompt, "a red fox");
            assert_eq!(shown.chat_id.as_deref(), Some("chat-1"));
            assert_eq!(shown.response_id, "resp-1");
            assert!(shown.local_path.is_none());
        }
        other => panic!("unexpected {:?}", other),
    }
}

fn timestamp_of(path: &str, prefix: &str, suffix: &str) -> u64 {
    assert!(path.starts_with(prefix), "{}", path);
    assert!(path.ends_with(suffix), "{}", path);
    let digits = &path[prefix.len()..path.len() - suffix.len()];
    assert!(!digits.is_empty() && digits.chars().all(|c| c.is_ascii_digit()), "{}", path);
    digits.parse().unwrap()
}

#[test]
fn download_path_is_named_after_the_current_time() {
    let mut state = AppState::new(None);
    let action = generate_image(
        &mut state,
        MediaEvent::Generated(media_plan(true), generated()),
    );
    let (request, reply, path) = match action {
        MediaAction::Download(request, reply, path) => (request, reply, path),
        other => panic!("unexpected {:?}", other),
    };
    assert!(timestamp_of(&path, "./generated/generated_image_", ".png") > 1_600_000_000);
    assert_eq!(request.prompt, "a red fox");
    assert_eq!(reply.content, "https://cdn.example/fox.png");
    match generate_image(&mut state, MediaEvent::Downloaded(request, reply, path.clone())) {
        MediaAction::Done(shown) => {
            assert_eq!(shown.local_path, Some(path));
            assert_eq!(shown.url, "https://cdn.example/fox.png");
            assert_eq!(shown.response_id, "resp-1");
        }
        other => panic!("unexpected {:?}", other),
    }
    match generate_video(&mut state, MediaEvent::Generated(media_plan(true), generated())) {
        MediaAction::Download(_, _, path) => {
            assert!(timestamp_of(&path, "./generated/generated_video_", ".mp4") > 1_600_000_000);
        }
        other => panic!("unexpected {:?}", other),
    }
}

#[test]
fn local_copy_paths_are_exact() {
    assert_eq!(
        local_copy_path(MediaKind::Image, 1700000000),
        "./generated/generated_image_1700000000.png"
    );
    assert_eq!(
        local_copy_path(MediaKind::Video, 1700000000),
        "./generated/generated_video_1700000000.mp4"
    );
    assert_eq!(local_copy_path(MediaKind::Image, 0), "./generated/generated_image_0.png");
    assert_eq!(local_copy_directory(), "./generated");
    assert!(local_copy_path(MediaKind::Video, 9).starts_with(local_copy_directory()));
}

#[test]
fn media_failures_are_internal_with_a_stage_prefix() {
    let image = [
        (MediaFailure::Connect, "Could not create Qwen client: x"),
        (MediaFailure::Generate, "Image generation failed: x"),
        (MediaFailure::Directory, "Failed to create directory: x"),
        (MediaFailure::Download, "Failed to download image: x"),
    ];
    let video = [
        (MediaFailure::Connect, "Could not create Qwen client: x"),
        (MediaFailure::Generate, "Video generation failed: x"),
        (MediaFailure::Directory, "Failed to create directory: x"),
        (MediaFailure::Download, "Failed to download video: x"),
    ];
    let mut state = AppState::new(Some("a"));
    for (stage, expected) in image {
        match generate_image(&mut state, MediaEvent::Failed(stage, "x".to_string())) {
            MediaAction::Reject(e) => {
                assert_eq!(e.kind, ErrorKind::Internal);
                assert_eq!(e.message, expected);
            }
            other => panic!("unexpected {:?}", other),
        }
    }
    for (stage, expected) in video {
        match generate_video(&mut state, MediaEvent::Failed(stage, "x".to_string())) {
            MediaAction::Reject(e) => assert_eq!(e.message, expected),
            other => panic!("unexpected {:?}", other),
        }
    }
    assert_eq!(state.next_qwen_token().as_deref(), Some("a"));
}
