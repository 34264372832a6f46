use pokidex::chat::{ChatCommand, ChatReply};
use pokidex::image::{media_type_of, next_chooser, selected_path, Chooser, ImageVerdict};

#[test]
fn quit_and_exit_leave_the_chat() {
    assert_eq!(ChatCommand::parse("quit"), ChatCommand::Quit);
    assert_eq!(ChatCommand::parse("exit\n"), ChatCommand::Quit);
    assert_eq!(ChatCommand::parse("  quit \r\n"), ChatCommand::Quit);
}

#[test]
fn help_shows_the_help() {
    assert_eq!(ChatCommand::parse("help\n"), ChatCommand::Help);
    assert_eq!(ChatCommand::parse("\thelp"), ChatCommand::Help);
}

#[test]
fn an_empty_line_is_skipped() {
    assert_eq!(ChatCommand::parse(""), ChatCommand::Skip);
    assert_eq!(ChatCommand::parse("\n"), ChatCommand::Skip);
    assert_eq!(ChatCommand::parse("  \t \r\n"), ChatCommand::Skip);
}

#[test]
fn anything_else_is_a_question() {
    assert_eq!(
        ChatCommand::parse(" What type is Charizard? \n"),
        ChatCommand::Ask("What type is Charizard?".to_string())
    );
    assert_eq!(ChatCommand::parse("Quit\n"), ChatCommand::Ask("Quit".to_string()));
    assert_eq!(ChatCommand::parse("quit now\n"), ChatCommand::Ask("quit now".to_string()));
    assert_eq!(ChatCommand::parse("help me\n"), ChatCommand::Ask("help me".to_string()));
    assert_eq!(ChatCommand::parse("exit.\n"), ChatCommand::Ask("exit.".to_string()));
}

#[test]
fn the_extension_gives_the_media_type() {
    assert_eq!(media_type_of("pikachu.png"), "image/png");
    assert_eq!(media_type_of("/tmp/shots/pikachu.jpg"), "image/jpeg");
    assert_eq!(media_type_of("pikachu.jpeg"), "image/jpeg");
    assert_eq!(media_type_of("pikachu.webp"), "image/webp");
    assert_eq!(media_type_of("pikachu.gif"), "image/gif");
    assert_eq!(media_type_of("PIKACHU.PNG"), "image/png");
    assert_eq!(media_type_of("a.b.JpEg"), "image/jpeg");
}

#[test]
fn other_files_are_plain_bytes() {
    assert_eq!(media_type_of("pikachu.bmp"), "application/octet-stream");
    assert_eq!(media_type_of("pikachu"), "application/octet-stream");
    assert_eq!(media_type_of("png"), "application/octet-stream");
    assert_eq!(media_type_of("pikachu.png.txt"), "application/octet-stream");
    assert_eq!(media_type_of(""), "application/octet-stream");
    assert_eq!(media_type_of("pikachu.pngx"), "application/octet-stream");
}

#[test]
fn a_chooser_gives_a_path_when_it_ends_well_and_prints_one() {
    assert_eq!(
        selected_path(true, "/home/ash/pikachu.png\n"),
        Some("/home/ash/pikachu.png".to_string())
    );
    assert_eq!(selected_path(true, "  my file.gif  "), Some("my file.gif".to_string()));
    assert_eq!(selected_path(true, ""), None);
    assert_eq!(selected_path(true, " \n"), None);
    assert_eq!(selected_path(false, "/home/ash/pikachu.png\n"), None);
    assert_eq!(selected_path(false, ""), None);
}

#[test]
fn a_verdict_is_read_from_either_shape() {
    assert_eq!(
        ImageVerdict::parse("{\"type\":\"pokemon\",\"name\":\"Pikachu\"}"),
        ImageVerdict::Pokemon { name: "Pikachu".to_string() }
    );
    assert_eq!(
        ImageVerdict::parse("{\"type\":\"not_pokemon\",\"reason\":\"a cat\"}"),
        ImageVerdict::NotPokemon { reason: "a cat".to_string() }
    );
}

#[test]
fn a_response_of_another_shape_is_no_verdict() {
    for text in [
        "",
        "It is Pikachu.",
        "{\"type\":\"pokemon\"}",
        "{\"type\":\"pokemon\",\"reason\":\"a cat\"}",
        "{\"type\":\"not_pokemon\"}",
        "{\"type\":\"not_pokemon\",\"name\":\"Pikachu\"}",
        "{\"type\":\"pokemon\",\"name\":7}",
        "{\"type\":\"final\",\"answer\":\"X\"}",
        "{\"name\":\"Pikachu\"}",
        "[]",
    ] {
        assert_eq!(ImageVerdict::parse(text), ImageVerdict::Unrecognized);
    }
}

#[test]
fn verdict_fields_alone_decide() {
    assert_eq!(
        ImageVerdict::from_fields(Some("pokemon"), Some("Mew"), Some("r")),
        ImageVerdict::Pokemon { name: "Mew".to_string() }
    );
    assert_eq!(
        ImageVerdict::from_fields(Some("not_pokemon"), Some("Mew"), Some("r")),
        ImageVerdict::NotPokemon { reason: "r".to_string() }
    );
    assert_eq!(ImageVerdict::from_fields(Some("pokemon"), None, Some("r")), ImageVerdict::Unrecognized);
    assert_eq!(ImageVerdict::from_fields(None, Some("Mew"), Some("r")), ImageVerdict::Unrecognized);
}

#[test]
fn only_quit_and_exit_end_the_chat() {
    assert!(ChatCommand::parse("quit\n").leaves());
    assert!(ChatCommand::parse(" exit ").leaves());
    assert!(!ChatCommand::parse("\n").leaves());
    assert!(!ChatCommand::parse("help\n").leaves());
    assert!(!ChatCommand::parse("Who is Mew?\n").leaves());
    assert!(!ChatCommand::Ask("quit".to_string()).leaves());
}

#[test]
fn an_answer_is_shown_as_it_is() {
    assert_eq!(
        ChatReply::after(Ok("Pikachu is an Electric type.".to_string())),
        ChatReply { shown: "Pikachu is an Electric type.".to_string(), error: None }
    );
    assert_eq!(ChatReply::after(Ok(String::new())), ChatReply { shown: String::new(), error: None });
}

#[test]
fn a_failed_question_is_shown_with_an_invitation_to_try_again() {
    assert_eq!(
        ChatReply::after(Err("Failed to find Pokemon: agumon".to_string())),
        ChatReply {
            shown: "Please try again or type 'help' for examples.".to_string(),
            error: Some("Error: Failed to find Pokemon: agumon".to_string()),
        }
    );
}

#[test]
fn zenity_is_tried_before_kdialog() {
    assert_eq!(next_chooser(None), Some(Chooser::Zenity));
    assert_eq!(next_chooser(Some(Chooser::Zenity)), Some(Chooser::Kdialog));
    assert_eq!(next_chooser(Some(Chooser::Kdialog)), None);
}
