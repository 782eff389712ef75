use impressy::path_prompt::{
    classify_path_prompt_result, first_path_prompt_result, resolve_path_prompt, PathPromptFailure,
    PathPromptResult,
};
use impressy::ui_message::{ErrorKind, UiMessage};
use impressy::workspace_state::Workspace;

type Ws = Workspace<(), ()>;

#[test]
fn path_prompt_resolver_maps_cancel_and_leaves_workspace_reusable() {
    let mut workspace = Ws::new();
    let result = classify_path_prompt_result::<String, (), ()>(Ok(Ok(None)));

    let selected = resolve_path_prompt(&mut workspace, result, UiMessage::CancelledOpen);

    assert!(selected.is_none());
    assert_eq!(workspace.status(), UiMessage::CancelledOpen);
    assert!(!workspace.is_busy());
    assert!(workspace.prepare_paths(&vec!["photo.png".to_string()], false).is_some());
}

#[test]
fn path_prompt_resolver_maps_failures_and_leaves_workspace_reusable() {
    for result in [
        classify_path_prompt_result::<String, (), ()>(Ok(Err(()))),
        classify_path_prompt_result::<String, (), ()>(Err(())),
    ] {
        let mut workspace = Ws::new();

        let selected = resolve_path_prompt(&mut workspace, result, UiMessage::CancelledOpen);

        assert!(selected.is_none());
        assert_eq!(workspace.status(), UiMessage::Error(ErrorKind::Io));
        assert!(!workspace.is_busy());
        assert!(workspace.prepare_paths(&vec!["photo.png".to_string()], false).is_some());
    }
}

#[test]
fn prompt_answers_are_classified_and_the_first_choice_is_kept() {
    assert_eq!(
        classify_path_prompt_result::<u8, (), ()>(Ok(Ok(Some(3)))),
        PathPromptResult::Selected(3)
    );
    assert_eq!(
        classify_path_prompt_result::<u8, (), ()>(Err(())),
        PathPromptResult::Failed(PathPromptFailure::ChannelClosed)
    );
    assert_eq!(first_path_prompt_result(PathPromptResult::Selected(vec![7, 8])), PathPromptResult::Selected(7));
    assert_eq!(first_path_prompt_result::<u8>(PathPromptResult::Selected(vec![])), PathPromptResult::Cancelled);
    let mut workspace = Ws::new();
    assert_eq!(resolve_path_prompt(&mut workspace, PathPromptResult::Selected(5u8), UiMessage::CancelledOpen), Some(5));
    assert_eq!(workspace.status(), Ws::new().status());
}
