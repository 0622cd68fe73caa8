use mailmerge::recipient::Recipient;
use mailmerge::render::{render, render_name, Template, PLACEHOLDER};

#[test]
fn renders_the_name_into_the_template() {
    assert_eq!(render_name("Hi {name}!", "Ann"), "Hi Ann!");
}

#[test]
fn replaces_every_placeholder_not_only_the_first() {
    assert_eq!(render_name("{name}, dear {name}: {name}", "Bo"), "Bo, dear Bo: Bo");
}

#[test]
fn template_without_placeholder_is_verbatim() {
    let template = "No token here.\nSecond line, with { and } and name.";
    assert_eq!(render_name(template, "Ann"), template);
}

#[test]
fn empty_template_renders_empty() {
    assert_eq!(render_name("", "Ann"), "");
}

#[test]
fn empty_name_removes_the_placeholders() {
    assert_eq!(render_name("a{name}b{name}c", ""), "abc");
}

#[test]
fn placeholder_alone_renders_to_the_name() {
    assert_eq!(render_name(PLACEHOLDER, "Cy"), "Cy");
    assert_eq!(PLACEHOLDER, "{name}");
}

#[test]
fn only_the_exact_token_is_recognised() {
    assert_eq!(render_name("{ name }", "Ann"), "{ name }");
    assert_eq!(render_name("{Name}", "Ann"), "{Name}");
    assert_eq!(render_name("{NAME}", "Ann"), "{NAME}");
    assert_eq!(render_name("{name", "Ann"), "{name");
    assert_eq!(render_name("name}", "Ann"), "name}");
    assert_eq!(render_name("{nam}", "Ann"), "{nam}");
    assert_eq!(render_name("{email}", "Ann"), "{email}");
}

#[test]
fn braces_around_a_token_stay() {
    assert_eq!(render_name("{{name}}", "Ann"), "{Ann}");
    assert_eq!(render_name("{name{name}", "Ann"), "{nameAnn");
    assert_eq!(render_name("{name}}", "Ann"), "Ann}");
}

#[test]
fn adjacent_placeholders_are_each_replaced() {
    assert_eq!(render_name("{name}{name}{name}", "ab"), "ababab");
}

#[test]
fn text_beyond_ascii_is_kept() {
    assert_eq!(render_name("Grüße, {name} — 你好 {name}!", "Zoë"), "Grüße, Zoë — 你好 Zoë!");
}

#[test]
fn a_name_is_not_rendered_again() {
    assert_eq!(render_name("Hi {name}", "{name}"), "Hi {name}");
    assert_eq!(render_name("{n{name}me}", "a"), "{name}");
}

#[test]
fn rendering_agrees_with_str_replace() {
    let templates = ["", "{name}", "x{name}", "{name}x", "{{name}", "{name}{name}", "{nam{name}e}", "plain"];
    let names = ["", "Ann", "{name}", "{", "}", "name", "é"];
    for template in templates {
        for name in names {
            assert_eq!(render_name(template, name), template.replace("{name}", name));
        }
    }
}

#[test]
fn rendering_twice_gives_the_same_body() {
    let first = render_name("Dear {name}, hello {name}.", "Ann");
    let second = render_name("Dear {name}, hello {name}.", "Ann");
    assert_eq!(first, second);
    assert_eq!(first, "Dear Ann, hello Ann.");
}

#[test]
fn rendering_reads_only_the_name_of_a_recipient() {
    let template = Template { body: "Hi {name}!".to_string() };
    let one = Recipient::new("Ann", "ann@x.com", "1");
    let other = Recipient::new("Ann", "other@y.org", "2");
    assert_eq!(render(&template, &one), "Hi Ann!");
    assert_eq!(render(&template, &one), render(&template, &other));
}

#[test]
fn rendering_for_a_recipient_leaves_the_template_as_it_was() {
    let template = Template { body: "Dear {name},".to_string() };
    let ann = Recipient::new("Ann", "ann@x.com", "1");
    let bo = Recipient::new("Bo", "bo@x.com", "2");
    assert_eq!(render(&template, &ann), "Dear Ann,");
    assert_eq!(render(&template, &bo), "Dear Bo,");
    assert_eq!(render(&template, &ann), "Dear Ann,");
    assert_eq!(template.body, "Dear {name},");
}

#[test]
fn rendered_body_holds_the_name_once_per_placeholder() {
    let template = "{name}: hello {name}, bye {name}";
    let body = render_name(template, "Ann");
    assert_eq!(template.matches("{name}").count(), 3);
    assert_eq!(body.matches("Ann").count(), 3);
    assert_eq!(body.matches("{name}").count(), 0);
}

#[test]
fn rendered_length_follows_the_count_of_placeholders() {
    let template = "{name}: hello {name}, bye {name}";
    let body = render_name(template, "Annabel");
    assert_eq!(body.chars().count(), template.chars().count() - 3 * 6 + 3 * 7);
}
