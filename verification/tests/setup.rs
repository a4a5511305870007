use chat_stream::{ChatRoute, EnterOutcome, SetupField, SetupForm};

fn route_of(form: &SetupForm) -> ChatRoute {
    ChatRoute {
        user: form.user.clone(),
        model_id: form.model_id.clone(),
        file: form.file.clone(),
        assistant_description: form.assistant_description.clone(),
    }
}

#[test]
fn form_starts_with_the_usual_model() {
    let form = SetupForm::new();
    assert_eq!(form.user, "bartowski");
    assert_eq!(form.model_id, "Qwen2.5-7B-Instruct-GGUF");
    assert_eq!(form.file, "Qwen2.5-7B-Instruct-Q4_K_M.gguf");
    assert_eq!(
        form.assistant_description,
        "You are Qwen, created by Alibaba Cloud. You are a helpful assistant."
    );
    assert!(!form.disabled);
}

#[test]
fn model_address_and_repository() {
    let form = SetupForm::new();
    assert_eq!(
        form.model_url(),
        "hf://bartowski/Qwen2.5-7B-Instruct-GGUF/Qwen2.5-7B-Instruct-Q4_K_M.gguf"
    );
    assert_eq!(form.repository(), "bartowski/Qwen2.5-7B-Instruct-GGUF");
    let mut bare = SetupForm::new();
    bare.user = String::new();
    bare.model_id = "m".to_string();
    bare.file = "f".to_string();
    assert_eq!(bare.model_url(), "hf:///m/f");
    assert_eq!(bare.repository(), "/m");
}

#[test]
fn chat_starts_unless_disabled() {
    let mut form = SetupForm::new();
    assert_eq!(form.start_chat(), Some(route_of(&form)));
    assert_eq!(form.button_label(), "Start Chatting");
    form.disabled = true;
    assert_eq!(form.start_chat(), None);
    assert_eq!(form.button_label(), "Verifying Model...");
}

#[test]
fn enter_walks_through_the_fields() {
    let form = SetupForm::new();
    assert_eq!(form.on_enter(SetupField::User, false), EnterOutcome::Focus(SetupField::ModelId));
    assert_eq!(form.on_enter(SetupField::ModelId, false), EnterOutcome::Focus(SetupField::File));
    assert_eq!(
        form.on_enter(SetupField::File, true),
        EnterOutcome::Focus(SetupField::Description)
    );
}

#[test]
fn enter_in_the_description_starts_the_chat() {
    let mut form = SetupForm::new();
    form.assistant_description = "You are terse.".to_string();
    assert_eq!(
        form.on_enter(SetupField::Description, false),
        EnterOutcome::StartChat(route_of(&form))
    );
    assert_eq!(form.on_enter(SetupField::Description, true), EnterOutcome::Nothing);
    form.disabled = true;
    assert_eq!(form.on_enter(SetupField::Description, false), EnterOutcome::Nothing);
}
