//! Chat messages and completion responses shared by every provider.
use vstd::prelude::*;

verus! {

/// Role of a message in a chat conversation.
#[derive(Debug, Clone, Copy, PartialEq, Eq, Structural)]
pub enum MessageRole {
    /// System message that sets the context
    System,
    /// User message
    User,
    /// Assistant/AI response
    Assistant,
    /// Function call message
    Function,
}

impl MessageRole {
    /// The lowercase name used on the wire.
    pub fn as_str(&self) -> (r: &'static str)
        ensures
            r@ == role_name(*self),
    {
        match self {
            MessageRole::System => "system",
            MessageRole::User => "user",
            MessageRole::Assistant => "assistant",
            MessageRole::Function => "function",
        }
    }
}

/// The lowercase name of a role.
pub open spec fn role_name(r: MessageRole) -> Seq<char> {
    match r {
        MessageRole::System => "system"@,
        MessageRole::User => "user"@,
        MessageRole::Assistant => "assistant"@,
        MessageRole::Function => "function"@,
    }
}

/// Function call information.
#[derive(Debug, Clone)]
pub struct FunctionCall {
    /// Name of the function to call
    pub name: String,
    /// Arguments for the function call (JSON text)
    pub arguments: String,
}

/// A single chat message.
#[derive(Debug, Clone)]
pub struct ChatMessage {
    /// Role of the message sender
    pub role: MessageRole,
    /// Content of the message
    pub content: String,
    /// Optional name for the message sender
    pub name: Option<String>,
    /// Optional function call data
    pub function_call: Option<FunctionCall>,
}

impl ChatMessage {
    /// Creates a message with the given role and content.
    pub fn new(role: MessageRole, content: String) -> (r: Self)
        ensures
            r.role == role,
            r.content@ == content@,
            r.name is None,
            r.function_call is None,
    {
        ChatMessage { role, content, name: None, function_call: None }
    }

    /// Creates a system message.
    pub fn system(content: String) -> (r: Self)
        ensures
            r.role == MessageRole::System,
            r.content@ == content@,
            r.name is None,
            r.function_call is None,
    {
        Self::new(MessageRole::System, content)
    }

    /// Creates a user message.
    pub fn user(content: String) -> (r: Self)
        ensures
            r.role == MessageRole::User,
            r.content@ == content@,
            r.name is None,
            r.function_call is None,
    {
        Self::new(MessageRole::User, content)
    }

    /// Creates an assistant message.
    pub fn assistant(content: String) -> (r: Self)
        ensures
            r.role == MessageRole::Assistant,
            r.content@ == content@,
            r.name is None,
            r.function_call is None,
    {
        Self::new(MessageRole::Assistant, content)
    }
}

/// Usage statistics for a completion.
#[derive(Debug, Clone, Copy)]
pub struct Usage {
    /// Number of tokens in the prompt
    pub prompt_tokens: u32,
    /// Number of tokens in the completion
    pub completion_tokens: u32,
    /// Total number of tokens used
    pub total_tokens: u32,
}

/// A single choice in a chat completion response.
#[derive(Debug, Clone)]
pub struct ChatChoice {
    /// Index of this choice
    pub index: u32,
    /// The message content
    pub message: ChatMessage,
    /// Reason why the completion finished
    pub finish_reason: Option<String>,
}

/// Chat completion response.
#[derive(Debug, Clone)]
pub struct ChatResponse {
    /// Unique identifier for the completion
    pub id: String,
    /// Object type (always "chat.completion")
    pub object: String,
    /// Unix timestamp of creation
    pub created: u64,
    /// Model used for completion
    pub model: String,
    /// List of completion choices
    pub choices: Vec<ChatChoice>,
    /// Usage statistics
    pub usage: Usage,
    /// System fingerprint
    pub system_fingerprint: Option<String>,
}

impl ChatResponse {
    /// The content of the first choice, if there is one.
    pub fn content(&self) -> (r: Option<&str>)
        ensures
            r is Some <==> self.choices@.len() > 0,
            r matches Some(c) ==> c@ == self.choices@[0].message.content@,
    {
        if self.choices.len() == 0 {
            None
        } else {
            Some(self.choices[0].message.content.as_str())
        }
    }

    /// The message of the first choice, if there is one.
    pub fn message(&self) -> (r: Option<&ChatMessage>)
        ensures
            r is Some <==> self.choices@.len() > 0,
            r matches Some(m) ==> *m == self.choices@[0].message,
    {
        if self.choices.len() == 0 {
            None
        } else {
            Some(&self.choices[0].message)
        }
    }
}

} // verus!
