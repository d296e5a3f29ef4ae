use dsdm::manifest::Delims;
use dsdm::render::{check_usable, render_checked};
use dsdm::template::TemplateContext;

fn context() -> TemplateContext {
    TemplateContext::Nested(vec![
        ("a".to_string(), TemplateContext::Value("x".to_string())),
        (
            "b".to_string(),
            TemplateContext::Nested(vec![
                ("c".to_string(), TemplateContext::Value("y".to_string())),
                ("0".to_string(), TemplateContext::Value("z".to_string())),
            ]),
        ),
        ("".to_string(), TemplateContext::Value("empty".to_string())),
    ])
}

fn step(state: &mut u64) -> usize {
    *state = state.wrapping_mul(6364136223846793005).wrapping_add(1442695040888963407);
    (*state >> 33) as usize
}

fn sweep(pairs: &[(&str, &str)], rounds: usize, seed: u64) {
    let pieces = [
        "a", "b", ".", "c", "0", "?.", "|", ":", ",", "-", "+", " ", "\t", "\n", "\r", "\"", "\\",
        "(", ")", "[", "]", "{", "}", "true", "not", "if", "1", "0x", "_", "é", "日", "\u{a0}",
        "\u{3000}", "f", "'",
    ];
    let context = context();
    let mut state = seed;
    for (open, close) in pairs {
        let dlm = Delims { open: open.to_string(), close: close.to_string() };
        assert!(check_usable(&dlm), "delimiters {:?} {:?}", open, close);
        let trim_open = format!("{}-", open);
        let trim_close = format!("-{}", close);
        for _ in 0..rounds {
            let mut source = String::new();
            let length = step(&mut state) % 12;
            for _ in 0..length {
                let pick = step(&mut state) % (pieces.len() + 8);
                match pick {
                    0 | 1 => source.push_str(open),
                    2 | 3 => source.push_str(close),
                    4 | 5 => source.push_str(&trim_open),
                    6 | 7 => source.push_str(&trim_close),
                    other => source.push_str(pieces[other - 8]),
                }
            }
            let first = render_checked(&source, &dlm, &context);
            assert!(first.is_some(), "template {:?}", source);
            assert_eq!(first, render_checked(&source, &dlm, &context), "template {:?}", source);
        }
    }
}

#[test]
fn the_engine_answers_every_template_with_the_default_delimiters() {
    sweep(&[("!(", ")!")], 6000, 1);
}

#[test]
fn the_engine_answers_every_template_with_short_delimiters() {
    sweep(&[("<", ">"), ("{", "}"), ("(", ")"), ("%", "%"), ("-", "-"), ("a", "b")], 900, 2);
}

#[test]
fn the_engine_answers_every_template_with_white_space_in_delimiters() {
    sweep(&[("< ", " >"), (" ", "."), ("\n", "\n<"), ("[[ ", " ]]"), ("\t<", "\u{a0}>")], 1000, 3);
}

#[test]
fn the_engine_answers_every_template_with_overlapping_delimiters() {
    sweep(&[("<-", "->"), ("--", "--"), ("<", "<-"), ("->", "-"), ("日", "é"), ("\"", "\"")], 900, 4);
}
