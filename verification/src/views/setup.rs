//! The setup screen: which model to chat with, and under what persona.

use vstd::prelude::*;
use vstd::string::StringExecFns;

verus! {

/// What the setup screen holds.
#[derive(Clone, Debug, PartialEq, Eq)]
pub struct SetupForm {
    pub user: String,
    pub model_id: String,
    pub file: String,
    pub assistant_description: String,
    /// Set while the model is being looked up: the chat cannot start then.
    pub disabled: bool,
}

/// Where the chat screen is to open: the model, and the assistant's persona.
#[derive(Clone, Debug, PartialEq, Eq)]
pub struct ChatRoute {
    pub user: String,
    pub model_id: String,
    pub file: String,
    pub assistant_description: String,
}

/// A field of the setup screen.
#[derive(Clone, Copy, Debug, PartialEq, Eq, Structural)]
pub enum SetupField {
    User,
    ModelId,
    File,
    Description,
}

/// What the enter key does in a field.
#[derive(Clone, Debug, PartialEq, Eq)]
pub enum EnterOutcome {
    /// The cursor moves to this field.
    Focus(SetupField),
    /// The chat starts here.
    StartChat(ChatRoute),
    /// Nothing.
    Nothing,
}

/// The address under which a model file is looked up.
pub open spec fn model_address(user: Seq<char>, model_id: Seq<char>, file: Seq<char>) -> Seq<char> {
    "hf://"@ + user + "/"@ + model_id + "/"@ + file
}

/// The repository that holds a model.
pub open spec fn model_repository(user: Seq<char>, model_id: Seq<char>) -> Seq<char> {
    user + "/"@ + model_id
}

impl SetupForm {
    /// Whether `route` names what the form holds.
    pub open spec fn leads_to(self, route: ChatRoute) -> bool {
        &&& route.user@ == self.user@
        &&& route.model_id@ == self.model_id@
        &&& route.file@ == self.file@
        &&& route.assistant_description@ == self.assistant_description@
    }

    /// The form as it first shows.
    pub fn new() -> (form: Self)
        ensures
            form.user@ == "bartowski"@,
            form.model_id@ == "Qwen2.5-7B-Instruct-GGUF"@,
            form.file@ == "Qwen2.5-7B-Instruct-Q4_K_M.gguf"@,
            form.assistant_description@
                == "You are Qwen, created by Alibaba Cloud. You are a helpful assistant."@,
            !form.disabled,
    {
        SetupForm {
            user: String::from_str("bartowski"),
            model_id: String::from_str("Qwen2.5-7B-Instruct-GGUF"),
            file: String::from_str("Qwen2.5-7B-Instruct-Q4_K_M.gguf"),
            assistant_description: String::from_str(
                "You are Qwen, created by Alibaba Cloud. You are a helpful assistant.",
            ),
            disabled: false,
        }
    }

    /// The address under which the model file is looked up.
    pub fn model_url(&self) -> (url: String)
        ensures
            url@ == model_address(self.user@, self.model_id@, self.file@),
    {
        let mut url = String::from_str("hf://");
        url.append(self.user.as_str());
        url.append("/");
        url.append(self.model_id.as_str());
        url.append("/");
        url.append(self.file.as_str());
        url
    }

    /// The repository that holds the model.
    pub fn repository(&self) -> (name: String)
        ensures
            name@ == model_repository(self.user@, self.model_id@),
    {
        let mut name = self.user.clone();
        name.append("/");
        name.append(self.model_id.as_str());
        name
    }

    /// The words on the start button.
    pub fn button_label(&self) -> (label: &'static str)
        ensures
            label@ == (if self.disabled {
                "Verifying Model..."@
            } else {
                "Start Chatting"@
            }),
    {
        if self.disabled {
            "Verifying Model..."
        } else {
            "Start Chatting"
        }
    }

    /// Where the chat opens, unless the form is disabled.
    pub fn start_chat(&self) -> (route: Option<ChatRoute>)
        ensures
            route is None <==> self.disabled,
            route matches Some(r) ==> self.leads_to(r),
    {
        if self.disabled {
            None
        } else {
            Some(
                ChatRoute {
                    user: self.user.clone(),
                    model_id: self.model_id.clone(),
                    file: self.file.clone(),
                    assistant_description: self.assistant_description.clone(),
                },
            )
        }
    }

    /// What the enter key does in `field`. In the first three fields it moves
    /// the cursor on to the next. In the description it starts the chat,
    /// unless shift is held or the form is disabled.
    pub fn on_enter(&self, field: SetupField, shift: bool) -> (outcome: EnterOutcome)
        ensures
            field == SetupField::User ==> outcome == EnterOutcome::Focus(SetupField::ModelId),
            field == SetupField::ModelId ==> outcome == EnterOutcome::Focus(SetupField::File),
            field == SetupField::File ==> outcome == EnterOutcome::Focus(SetupField::Description),
            field == SetupField::Description ==> (if shift || self.disabled {
                outcome == EnterOutcome::Nothing
            } else {
                outcome matches EnterOutcome::StartChat(r) && self.leads_to(r)
            }),
    {
        match field {
            SetupField::User => EnterOutcome::Focus(SetupField::ModelId),
            SetupField::ModelId => EnterOutcome::Focus(SetupField::File),
            SetupField::File => EnterOutcome::Focus(SetupField::Description),
            SetupField::Description => {
                if shift {
                    EnterOutcome::Nothing
                } else {
                    match self.start_chat() {
                        Some(route) => EnterOutcome::StartChat(route),
                        None => EnterOutcome::Nothing,
                    }
                }
            },
        }
    }
}

} // verus!
