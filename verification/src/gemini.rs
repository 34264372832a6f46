use vstd::prelude::*;

verus! {

/// Where generation requests are sent unless a client is told otherwise.
pub const DEFAULT_BASE_URL: &'static str =
    "https://generativelanguage.googleapis.com/v1beta/models/gemini-pro:generateContent";

/// What stands before the data in a prompt that answers from data.
pub const CONTEXT_OPENING: &'static str =
    "You are a helpful Pokemon assistant. Use the following Pokemon data to answer the user's question accurately and concisely.\n\nPokemon Data:\n";

/// What stands between the data and the question.
pub const CONTEXT_QUESTION: &'static str = "\n\nUser Question: ";

/// What stands after the question.
pub const CONTEXT_CLOSING: &'static str =
    "\n\nProvide a clear, accurate answer based on the Pokemon data above. If the data doesn't contain the answer, say so.";

/// What is reported when no credential was given.
pub const MISSING_KEY_MESSAGE: &'static str = "GEMINI_API_KEY environment variable not set";

/// The prompt that asks for an answer to `question` from the data in `context`.
pub open spec fn context_prompt(context: Seq<char>, question: Seq<char>) -> Seq<char> {
    CONTEXT_OPENING@ + context + CONTEXT_QUESTION@ + question + CONTEXT_CLOSING@
}

/// The address of a generation request: the service's address with the
/// credential as its `key` parameter.
pub open spec fn request_url(base_url: Seq<char>, api_key: Seq<char>) -> Seq<char> {
    base_url + "?key="@ + api_key
}

/// Builds the prompt that asks for an answer to `question` from the data in `context`.
pub fn build_context_prompt(context: &str, question: &str) -> (prompt: String)
    ensures
        prompt@ == context_prompt(context@, question@),
{
    let mut prompt = String::new();
    prompt.append(CONTEXT_OPENING);
    prompt.append(context);
    prompt.append(CONTEXT_QUESTION);
    prompt.append(question);
    prompt.append(CONTEXT_CLOSING);
    assert(prompt@ == context_prompt(context@, question@));
    prompt
}

/// The client cannot be set up.
#[derive(Clone, Copy, PartialEq, Eq, Structural, Debug)]
pub enum ConfigError {
    /// No credential for the generation service was given.
    MissingApiKey,
}

impl ConfigError {
    /// How the error reads.
    pub fn message(&self) -> (text: String)
        ensures
            text@ == MISSING_KEY_MESSAGE@,
    {
        MISSING_KEY_MESSAGE.to_owned()
    }
}

/// One request to the generation service, ready to be sent.
#[derive(Debug, PartialEq, Eq)]
pub struct GenerationRequest {
    pub url: String,
    pub prompt: String,
}

/// One answer that the generation service proposes, as its parts of text.
#[derive(Debug, PartialEq, Eq)]
pub struct Candidate {
    pub parts: Vec<String>,
}

impl DeepView for Candidate {
    type V = Seq<Seq<char>>;

    open spec fn deep_view(&self) -> Seq<Seq<char>> {
        self.parts.deep_view()
    }
}

/// What the generation service sent back, once decoded.
#[derive(Debug, PartialEq, Eq)]
pub struct GeminiResponse {
    pub candidates: Vec<Candidate>,
}

impl View for GeminiResponse {
    type V = Seq<Seq<Seq<char>>>;

    open spec fn view(&self) -> Seq<Seq<Seq<char>>> {
        self.candidates.deep_view()
    }
}

/// Why a generation request brought no text.
#[derive(Debug, PartialEq, Eq)]
pub enum GenerationError {
    /// The request could not be sent.
    SendFailed,
    /// The service answered with a status other than success.
    Rejected { status: String, body: String },
    /// The answer could not be decoded.
    Malformed,
    /// The answer holds no text.
    Empty,
}

/// A generation error as a mathematical value.
pub enum GenerationErrorView {
    SendFailed,
    Rejected { status: Seq<char>, body: Seq<char> },
    Malformed,
    Empty,
}

impl View for GenerationError {
    type V = GenerationErrorView;

    open spec fn view(&self) -> GenerationErrorView {
        match self {
            GenerationError::SendFailed => GenerationErrorView::SendFailed,
            GenerationError::Rejected { status, body } => GenerationErrorView::Rejected {
                status: status@,
                body: body@,
            },
            GenerationError::Malformed => GenerationErrorView::Malformed,
            GenerationError::Empty => GenerationErrorView::Empty,
        }
    }
}

/// How a generation error reads.
pub open spec fn generation_error_text(e: GenerationErrorView) -> Seq<char> {
    match e {
        GenerationErrorView::SendFailed => "Failed to send request to Gemini API"@,
        GenerationErrorView::Rejected { status, body } => "Gemini API error ("@ + status + "): "@
            + body,
        GenerationErrorView::Malformed => "Failed to parse Gemini API response"@,
        GenerationErrorView::Empty => "No response text in Gemini API response"@,
    }
}

impl GenerationError {
    /// How the error reads.
    pub fn message(&self) -> (text: String)
        ensures
            text@ == generation_error_text(self@),
    {
        match self {
            GenerationError::SendFailed => "Failed to send request to Gemini API".to_owned(),
            GenerationError::Rejected { status, body } => {
                let mut text = String::new();
                text.append("Gemini API error (");
                text.append(status.as_str());
                text.append("): ");
                text.append(body.as_str());
                assert(text@ == generation_error_text(self@));
                text
            },
            GenerationError::Malformed => "Failed to parse Gemini API response".to_owned(),
            GenerationError::Empty => "No response text in Gemini API response".to_owned(),
        }
    }
}

/// The text of an answer: the first part of the first candidate.
pub open spec fn first_text(response: Seq<Seq<Seq<char>>>) -> Option<Seq<char>> {
    if response.len() > 0 && response[0].len() > 0 {
        Some(response[0][0])
    } else {
        None
    }
}

/// What came of sending a request to the generation service.
#[derive(Debug, PartialEq, Eq)]
pub enum Exchange {
    /// The request could not be sent.
    Unsent,
    /// The service answered.
    Answered {
        /// Whether the status of the answer is one of success.
        success: bool,
        /// How the status reads.
        status: String,
        /// The body of the answer as text.
        body: String,
        /// The body decoded, where it can be decoded.
        decoded: Option<GeminiResponse>,
    },
}

/// An exchange as a mathematical value.
pub enum ExchangeView {
    Unsent,
    Answered {
        success: bool,
        status: Seq<char>,
        body: Seq<char>,
        decoded: Option<Seq<Seq<Seq<char>>>>,
    },
}

impl View for Exchange {
    type V = ExchangeView;

    open spec fn view(&self) -> ExchangeView {
        match self {
            Exchange::Unsent => ExchangeView::Unsent,
            Exchange::Answered { success, status, body, decoded } => ExchangeView::Answered {
                success: *success,
                status: status@,
                body: body@,
                decoded: match decoded {
                    Some(response) => Some(response@),
                    None => None,
                },
            },
        }
    }
}

/// The text that an exchange brought, or why it brought none. A request that
/// was not sent has failed. A status other than success is an error with the
/// status and the body, whatever the body holds. With a status of success, a
/// body that cannot be decoded is an error, and so is one without text.
pub open spec fn outcome_of(exchange: ExchangeView) -> Result<Seq<char>, GenerationErrorView> {
    match exchange {
        ExchangeView::Unsent => Err(GenerationErrorView::SendFailed),
        ExchangeView::Answered { success, status, body, decoded } => {
            if !success {
                Err(GenerationErrorView::Rejected { status, body })
            } else {
                match decoded {
                    None => Err(GenerationErrorView::Malformed),
                    Some(response) => match first_text(response) {
                        Some(text) => Ok(text),
                        None => Err(GenerationErrorView::Empty),
                    },
                }
            }
        },
    }
}

/// The library's side of the generation service: it holds the credential and
/// the service's address, words the requests and reads the answers.
#[derive(Debug, PartialEq, Eq)]
pub struct GeminiClient {
    api_key: String,
    base_url: String,
}

/// What a client holds, as a mathematical value.
pub struct GeminiClientView {
    pub api_key: Seq<char>,
    pub base_url: Seq<char>,
}

impl View for GeminiClient {
    type V = GeminiClientView;

    closed spec fn view(&self) -> GeminiClientView {
        GeminiClientView { api_key: self.api_key@, base_url: self.base_url@ }
    }
}

impl GeminiClient {
    /// A client for the default address, where a credential is given.
    pub fn new(api_key: Option<String>) -> (made: Result<GeminiClient, ConfigError>)
        ensures
            match api_key {
                Some(key) => made matches Ok(client) && client@ == (GeminiClientView {
                    api_key: key@,
                    base_url: DEFAULT_BASE_URL@,
                }),
                None => made == Err::<GeminiClient, ConfigError>(ConfigError::MissingApiKey),
            },
    {
        match api_key {
            Some(key) => Ok(GeminiClient { api_key: key, base_url: DEFAULT_BASE_URL.to_owned() }),
            None => Err(ConfigError::MissingApiKey),
        }
    }

    /// The request that asks the service to continue `prompt`.
    pub fn generate_content(&self, prompt: &str) -> (request: GenerationRequest)
        ensures
            request.url@ == request_url(self@.base_url, self@.api_key),
            request.prompt@ == prompt@,
    {
        let mut url = self.base_url.clone();
        url.append("?key=");
        url.append(self.api_key.as_str());
        GenerationRequest { url, prompt: prompt.to_owned() }
    }

    /// The request that asks the service to answer `user_query` from the data
    /// in `context`.
    pub fn generate_with_context(&self, context: &str, user_query: &str) -> (request:
        GenerationRequest)
        ensures
            request.url@ == request_url(self@.base_url, self@.api_key),
            request.prompt@ == context_prompt(context@, user_query@),
    {
        let prompt = build_context_prompt(context, user_query);
        self.generate_content(prompt.as_str())
    }

    /// The text of a decoded answer: the first part of its first candidate.
    /// An answer without one is an error.
    pub fn response_text(&self, response: &GeminiResponse) -> (text: Result<String, GenerationError>)
        ensures
            match text {
                Ok(t) => first_text(response@) == Some(t@),
                Err(e) => first_text(response@) is None && e@ == GenerationErrorView::Empty,
            },
    {
        if response.candidates.len() > 0 && response.candidates[0].parts.len() > 0 {
            Ok(response.candidates[0].parts[0].clone())
        } else {
            Err(GenerationError::Empty)
        }
    }

    /// Reads what came of sending a request: the text of the answer, or the
    /// error that stands for what went wrong.
    pub fn outcome(&self, exchange: Exchange) -> (text: Result<String, GenerationError>)
        ensures
            match text {
                Ok(t) => outcome_of(exchange@) == Ok::<Seq<char>, GenerationErrorView>(t@),
                Err(e) => outcome_of(exchange@) == Err::<Seq<char>, GenerationErrorView>(e@),
            },
    {
        match exchange {
            Exchange::Unsent => Err(GenerationError::SendFailed),
            Exchange::Answered { success, status, body, decoded } => {
                if !success {
                    Err(GenerationError::Rejected { status, body })
                } else {
                    match decoded {
                        None => Err(GenerationError::Malformed),
                        Some(response) => self.response_text(&response),
                    }
                }
            },
        }
    }
}

} // verus!
