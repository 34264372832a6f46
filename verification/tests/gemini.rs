use pokidex::gemini::{
    build_context_prompt, Candidate, ConfigError, Exchange, GeminiClient, GeminiResponse,
    GenerationError,
};

fn client() -> GeminiClient {
    GeminiClient::new(Some("SECRET-REDACTED".to_string())).unwrap()
}

#[test]
fn a_client_needs_a_credential() {
    assert_eq!(GeminiClient::new(None), Err(ConfigError::MissingApiKey));
    assert_eq!(
        ConfigError::MissingApiKey.message(),
        "GEMINI_API_KEY environment variable not set"
    );
    assert!(GeminiClient::new(Some(String::new())).is_ok());
}

#[test]
fn a_request_carries_the_credential_in_its_address() {
    let request = client().generate_content("Who is Pikachu?");
    assert_eq!(
        request.url,
        "https://generativelanguage.googleapis.com/v1beta/models/gemini-pro:generateContent?key=SECRET-REDACTED"
    );
    assert_eq!(request.prompt, "Who is Pikachu?");
}

#[test]
fn a_context_prompt_frames_data_and_question() {
    let expected = "You are a helpful Pokemon assistant. Use the following Pokemon data to answer the user's question accurately and concisely.\n\nPokemon Data:\nName: pikachu\n\n\nUser Question: What is it?\n\nProvide a clear, accurate answer based on the Pokemon data above. If the data doesn't contain the answer, say so.";
    assert_eq!(build_context_prompt("Name: pikachu\n", "What is it?"), expected);
    let request = client().generate_with_context("Name: pikachu\n", "What is it?");
    assert_eq!(request.prompt, expected);
    assert_eq!(request.url, client().generate_content("").url);
}

#[test]
fn the_text_is_the_first_part_of_the_first_candidate() {
    let response = GeminiResponse {
        candidates: vec![
            Candidate { parts: vec!["first".to_string(), "second".to_string()] },
            Candidate { parts: vec!["other".to_string()] },
        ],
    };
    assert_eq!(client().response_text(&response), Ok("first".to_string()));
}

#[test]
fn a_response_without_text_is_an_error() {
    let none = GeminiResponse { candidates: Vec::new() };
    assert_eq!(client().response_text(&none), Err(GenerationError::Empty));
    // Only the first candidate counts.
    let hollow = GeminiResponse {
        candidates: vec![
            Candidate { parts: Vec::new() },
            Candidate { parts: vec!["late".to_string()] },
        ],
    };
    assert_eq!(client().response_text(&hollow), Err(GenerationError::Empty));
}

#[test]
fn generation_errors_read_as_they_are_reported() {
    assert_eq!(GenerationError::SendFailed.message(), "Failed to send request to Gemini API");
    assert_eq!(
        GenerationError::Rejected {
            status: "404 Not Found".to_string(),
            body: "no such model".to_string()
        }
        .message(),
        "Gemini API error (404 Not Found): no such model"
    );
    assert_eq!(GenerationError::Malformed.message(), "Failed to parse Gemini API response");
    assert_eq!(GenerationError::Empty.message(), "No response text in Gemini API response");
}

fn answered(success: bool, status: &str, body: &str, parts: Option<Vec<&str>>) -> Exchange {
    Exchange::Answered {
        success,
        status: status.to_string(),
        body: body.to_string(),
        decoded: parts.map(|p| GeminiResponse {
            candidates: vec![Candidate { parts: p.into_iter().map(|s| s.to_string()).collect() }],
        }),
    }
}

#[test]
fn an_exchange_that_went_well_gives_its_text() {
    assert_eq!(
        client().outcome(answered(true, "200 OK", "{...}", Some(vec!["Hello", "more"]))),
        Ok("Hello".to_string())
    );
}

#[test]
fn a_request_that_was_not_sent_has_failed() {
    assert_eq!(client().outcome(Exchange::Unsent), Err(GenerationError::SendFailed));
}

#[test]
fn a_status_other_than_success_is_an_error_whatever_the_body_holds() {
    let rejected = Err(GenerationError::Rejected {
        status: "429 Too Many Requests".to_string(),
        body: "slow down".to_string(),
    });
    assert_eq!(client().outcome(answered(false, "429 Too Many Requests", "slow down", None)), rejected);
    assert_eq!(
        client().outcome(answered(false, "429 Too Many Requests", "slow down", Some(vec!["Hello"]))),
        rejected
    );
    assert_eq!(
        client().outcome(answered(false, "500 Internal Server Error", "", None)),
        Err(GenerationError::Rejected {
            status: "500 Internal Server Error".to_string(),
            body: String::new()
        })
    );
}

#[test]
fn a_body_that_cannot_be_decoded_is_malformed() {
    assert_eq!(
        client().outcome(answered(true, "200 OK", "<html>", None)),
        Err(GenerationError::Malformed)
    );
}

#[test]
fn a_decoded_body_without_text_is_empty() {
    assert_eq!(
        client().outcome(answered(true, "200 OK", "{}", Some(Vec::new()))),
        Err(GenerationError::Empty)
    );
    let no_candidates = Exchange::Answered {
        success: true,
        status: "200 OK".to_string(),
        body: "{\"candidates\":[]}".to_string(),
        decoded: Some(GeminiResponse { candidates: Vec::new() }),
    };
    assert_eq!(client().outcome(no_candidates), Err(GenerationError::Empty));
}
