use minty_core::cli::{Cli, Command, Find, New, Post, PostRm, Tag, TagRm};
use minty_core::output::icon::{self, Icon};
use minty_core::output::{Form, HumanReadable, Json, Output, Print, Printed, Stream};

struct Greeting;

impl HumanReadable for Greeting {
    fn human_readable(&self, indent: usize) -> String {
        format!("{:indent$}hello", "")
    }
}

impl Json for Greeting {
    fn to_json(&self) -> String {
        "\"hello\"".to_string()
    }
}

fn json(stream: Stream) -> Printed {
    Printed { form: Form::Json, stream, text: "\"hello\"".to_string() }
}

fn human(stream: Stream) -> Printed {
    Printed { form: Form::HumanReadable, stream, text: "hello".to_string() }
}

#[test]
fn json_alone_goes_to_standard_output() {
    let output = Output { human_readable: false, json: true };
    for terminal in [false, true] {
        assert_eq!(output.forms(terminal), vec![(Form::Json, Stream::Stdout)]);
        assert_eq!(Greeting.print(output, terminal), vec![json(Stream::Stdout)]);
    }
}

#[test]
fn both_forms_go_to_different_streams() {
    let output = Output { human_readable: true, json: true };
    for terminal in [false, true] {
        assert_eq!(
            Greeting.print(output, terminal),
            vec![json(Stream::Stdout), human(Stream::Stderr)]
        );
    }
}

#[test]
fn text_for_people_alone_goes_to_standard_output() {
    let output = Output { human_readable: true, json: false };
    for terminal in [false, true] {
        assert_eq!(Greeting.print(output, terminal), vec![human(Stream::Stdout)]);
    }
}

#[test]
fn without_a_wish_a_terminal_gets_text_and_a_pipe_gets_json() {
    let output = Output { human_readable: false, json: false };
    assert_eq!(Greeting.print(output, true), vec![human(Stream::Stdout)]);
    assert_eq!(Greeting.print(output, false), vec![json(Stream::Stdout)]);
}

#[test]
fn icons_are_their_characters() {
    assert_eq!(Icon(icon::POUND).symbol(), '\u{f0423}');
    assert_eq!(icon::ACCOUNT, '\u{f0004}');
    assert_eq!(icon::BINARY, '\u{f471}');
    assert_eq!(icon::CALENDAR, '\u{f00ed}');
    assert_eq!(icon::CLOCK, '\u{f0954}');
    assert_eq!(icon::COMMENT, '\u{f017a}');
    assert_eq!(icon::DOCUMENT, '\u{f0219}');
    assert_eq!(icon::EMAIL, '\u{f01ee}');
    assert_eq!(icon::EYE, '\u{f0208}');
    assert_eq!(icon::HARDDISK, '\u{f02ca}');
    assert_eq!(icon::IMAGE, '\u{f021f}');
    assert_eq!(icon::PENCIL, '\u{f03eb}');
    assert_eq!(icon::SEAL, '\u{f047a}');
    assert_eq!(icon::TAG, '\u{f04f9}');
    assert_eq!(icon::TRASH, '\u{f48e}');
}

fn cli(config: Option<&str>, human_readable: bool, json: bool, command: Command) -> Cli {
    Cli {
        config: config.map(String::from),
        server: "default".to_string(),
        human_readable,
        json,
        command,
    }
}

#[test]
fn the_command_line_names_its_configuration_and_its_output() {
    let with = cli(Some("/etc/minty.yaml"), true, false, Command::About);
    assert_eq!(with.config(), Some("/etc/minty.yaml".to_string()));
    assert_eq!(with.output(), Output { human_readable: true, json: false });
    let without = cli(None, false, true, Command::About);
    assert_eq!(without.config(), None);
    assert_eq!(without.output(), Output { human_readable: false, json: true });
}

#[test]
fn commands_are_plain_data() {
    let find = Command::Find {
        from: 0,
        size: 50,
        command: Find::Post {
            drafts: false,
            sort_by: "created".to_string(),
            tag: vec![1, 2],
            text: None,
        },
    };
    assert_ne!(find, Command::Find { from: 0, size: 50, command: Find::Tag { name: "a".into() } });
    let new = Command::New { command: New::Tag { name: "a".to_string() } };
    assert_ne!(
        new,
        Command::New {
            command: New::Post {
                title: None,
                description: None,
                draft: true,
                post: None,
                tag: None,
                objects: vec![],
            }
        }
    );
    let post = Command::Post {
        id: 1,
        command: Some(Post::Rm {
            force: true,
            command: Some(PostRm::Obj { objects: vec![3] }),
        }),
    };
    assert_ne!(post, Command::Post { id: 1, command: Some(Post::Publish) });
    let tag = Command::Tag {
        id: 2,
        command: Some(Tag::Rm {
            force: false,
            command: Some(TagRm::Alias { alias: None }),
        }),
    };
    assert_ne!(tag, Command::Tag { id: 2, command: Some(Tag::Aka { alias: "b".to_string() }) });
    assert_eq!(cli(None, false, false, tag).server, "default");
}
