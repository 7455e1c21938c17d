use vstd::prelude::*;
use crate::config::RendererMode;
use crate::text::{str_chars, str_eq, string_of};
use crate::natural::{ends_with_ignoring_case, ends_with_ignoring_case_chars};

verus! {

/// What the command line asks for: settings file name, path to open, debug output,
/// renderer override (`"wgpu"` or `"glow"`), and pro mode.
pub type ParsedArgs = (Option<Seq<char>>, Option<Seq<char>>, bool, Option<Seq<char>>, bool);

/// Whether an argument looks like an option (`str::starts_with('-')`).
pub open spec fn dashed(a: Seq<char>) -> bool {
    a.len() > 0 && a[0] == '-'
}

/// Reads the arguments from index `i` on over what was read so far (`acc`).
/// `-c`/`--config NAME` names the settings file (a trailing `-c` is ignored), `-d`/`--debug`
/// turns on debug output, `-W` and `-O` pick the renderer, `-pro` turns on pro mode, and
/// the first argument that does not start with `-` is the path to open; anything else is
/// skipped.
pub open spec fn parse_args_from(args: Seq<Seq<char>>, i: int, acc: ParsedArgs) -> ParsedArgs
    decreases args.len() - i,
{
    if i < 0 || i >= args.len() {
        acc
    } else {
        let a = args[i];
        if a == "-c"@ || a == "--config"@ {
            if i + 1 < args.len() {
                parse_args_from(args, i + 2, (Some(args[i + 1]), acc.1, acc.2, acc.3, acc.4))
            } else {
                parse_args_from(args, i + 1, acc)
            }
        } else if a == "-d"@ || a == "--debug"@ {
            parse_args_from(args, i + 1, (acc.0, acc.1, true, acc.3, acc.4))
        } else if a == "-W"@ {
            parse_args_from(args, i + 1, (acc.0, acc.1, acc.2, Some("wgpu"@), acc.4))
        } else if a == "-O"@ {
            parse_args_from(args, i + 1, (acc.0, acc.1, acc.2, Some("glow"@), acc.4))
        } else if a == "-pro"@ {
            parse_args_from(args, i + 1, (acc.0, acc.1, acc.2, acc.3, true))
        } else if !dashed(a) && acc.1 is None {
            parse_args_from(args, i + 1, (acc.0, Some(a), acc.2, acc.3, acc.4))
        } else {
            parse_args_from(args, i + 1, acc)
        }
    }
}

/// The command line read from the second argument on (the first is the program).
pub open spec fn parsed_args(args: Seq<Seq<char>>) -> ParsedArgs {
    parse_args_from(args, 1, (None, None, false, None, false))
}

pub open spec fn opt_view(o: Option<String>) -> Option<Seq<char>> {
    match o {
        Some(s) => Some(s@),
        None => None,
    }
}

/// Reads the command line (the first argument being the program):
/// (settings file name, path to open, debug, renderer override, pro mode).
pub fn parse_args(args: &[String]) -> (r: (Option<String>, Option<String>, bool, Option<String>, bool))
    ensures
        (opt_view(r.0), opt_view(r.1), r.2, opt_view(r.3), r.4) == parsed_args(
            args@.map_values(|s: String| s@),
        ),
{
    let ghost sv = args@.map_values(|s: String| s@);
    let mut config_name: Option<String> = None;
    let mut path_arg: Option<String> = None;
    let mut debug_mode = false;
    let mut renderer_override: Option<String> = None;
    let mut pro_mode = false;
    let mut i: usize = 1;
    while i < args.len()
        invariant
            1 <= i,
            sv == args@.map_values(|s: String| s@),
            parsed_args(sv) == parse_args_from(
                sv,
                i as int,
                (opt_view(config_name), opt_view(path_arg), debug_mode, opt_view(renderer_override), pro_mode),
            ),
        decreases args.len() - i,
    {
        let a = args[i].as_str();
        assert(sv[i as int] == a@);
        if str_eq(a, "-c") || str_eq(a, "--config") {
            if i + 1 < args.len() {
                config_name = Some(args[i + 1].clone());
                assert(sv[i + 1] == args@[i + 1]@);
                i = i + 2;
            } else {
                i = i + 1;
            }
        } else if str_eq(a, "-d") || str_eq(a, "--debug") {
            debug_mode = true;
            i = i + 1;
        } else if str_eq(a, "-W") {
            renderer_override = Some(String::from_str("wgpu"));
            i = i + 1;
        } else if str_eq(a, "-O") {
            renderer_override = Some(String::from_str("glow"));
            i = i + 1;
        } else if str_eq(a, "-pro") {
            pro_mode = true;
            i = i + 1;
        } else {
            let cs = str_chars(a);
            let dash = cs.len() > 0 && cs[0] == '-';
            if !dash && path_arg.is_none() {
                path_arg = Some(args[i].clone());
            }
            i = i + 1;
        }
    }
    (config_name, path_arg, debug_mode, renderer_override, pro_mode)
}

/// Reading from `k` on looks only at the arguments from `k` on.
proof fn lemma_parse_tail(a1: Seq<Seq<char>>, a2: Seq<Seq<char>>, k: int, acc: ParsedArgs)
    requires
        a1.len() == a2.len(),
        k >= 0,
        forall|j: int| k <= j < a1.len() ==> a1[j] == a2[j],
    ensures
        parse_args_from(a1, k, acc) == parse_args_from(a2, k, acc),
    decreases a1.len() - k,
{
    if k < a1.len() {
        if k + 1 < a1.len() {
            assert(a1[k + 1] == a2[k + 1]);
        }
        lemma_parse_tail(a1, a2, k + 1, acc);
        lemma_parse_tail(a1, a2, k + 1, (acc.0, acc.1, true, acc.3, acc.4));
        lemma_parse_tail(a1, a2, k + 1, (acc.0, acc.1, acc.2, Some("wgpu"@), acc.4));
        lemma_parse_tail(a1, a2, k + 1, (acc.0, acc.1, acc.2, Some("glow"@), acc.4));
        lemma_parse_tail(a1, a2, k + 1, (acc.0, acc.1, acc.2, acc.3, true));
        lemma_parse_tail(a1, a2, k + 1, (acc.0, Some(a1[k]), acc.2, acc.3, acc.4));
        if k + 1 < a1.len() {
            lemma_parse_tail(a1, a2, k + 2, (Some(a1[k + 1]), acc.1, acc.2, acc.3, acc.4));
        }
    }
}

/// The long options mean the same as the short ones: `--config` as `-c` (the next
/// argument names the settings file) and `--debug` as `-d`, wherever they stand.
pub proof fn law_long_options(args: Seq<Seq<char>>, i: int, acc: ParsedArgs)
    requires
        0 <= i < args.len(),
    ensures
        parse_args_from(args.update(i, "--config"@), i, acc) == parse_args_from(args.update(i, "-c"@), i, acc),
        parse_args_from(args.update(i, "--debug"@), i, acc) == parse_args_from(args.update(i, "-d"@), i, acc),
{
    reveal_strlit("-c");
    reveal_strlit("--config");
    reveal_strlit("-d");
    reveal_strlit("--debug");
    let x = args.update(i, "--config"@);
    let y = args.update(i, "-c"@);
    if i + 1 < args.len() {
        assert(x[i + 1] == y[i + 1]);
        lemma_parse_tail(x, y, i + 2, (Some(x[i + 1]), acc.1, acc.2, acc.3, acc.4));
    } else {
        lemma_parse_tail(x, y, i + 1, acc);
    }
    let u = args.update(i, "--debug"@);
    let w = args.update(i, "-d"@);
    assert("--debug"@.len() != "-c"@.len());
    assert("--debug"@.len() != "--config"@.len());
    assert("-d"@ != "-c"@) by {
        assert("-d"@[1] != "-c"@[1]);
    }
    assert("-d"@.len() != "--config"@.len());
    lemma_parse_tail(u, w, i + 1, (acc.0, acc.1, true, acc.3, acc.4));
}

/// A command line whose only options name a settings file, `-c NAME` or
/// `--config NAME`, reads that name, opens nothing and changes nothing else.
pub proof fn law_config_option(prog: Seq<char>, name: Seq<char>)
    ensures
        parsed_args(seq![prog, "-c"@, name]) == (Some(name), None::<Seq<char>>, false, None::<Seq<char>>, false),
        parsed_args(seq![prog, "--config"@, name]) == (Some(name), None::<Seq<char>>, false, None::<Seq<char>>, false),
{
    reveal_strlit("-c");
    reveal_strlit("--config");
    let a = seq![prog, "-c"@, name];
    let b = seq![prog, "--config"@, name];
    assert(a[1] == "-c"@);
    assert(b[1] == "--config"@);
    assert(parse_args_from(a, 3, (Some(name), None::<Seq<char>>, false, None::<Seq<char>>, false))
        == (Some(name), None::<Seq<char>>, false, None::<Seq<char>>, false));
    assert(parse_args_from(b, 3, (Some(name), None::<Seq<char>>, false, None::<Seq<char>>, false))
        == (Some(name), None::<Seq<char>>, false, None::<Seq<char>>, false));
}

/// Name the title gives a renderer.
pub open spec fn renderer_label(r: RendererMode) -> Seq<char> {
    match r {
        RendererMode::Glow => "OpenGL"@,
        RendererMode::Wgpu => "Wgpu"@,
    }
}

/// The window title: `Hinjaku - `, then `ProMode - ` in pro mode, the renderer's name,
/// and ` {NAME}` for a settings file other than `config.ini`.
pub open spec fn window_title(config_name: Option<Seq<char>>, renderer: RendererMode, pro: bool) -> Seq<
    char,
> {
    let pro_part = if pro {
        "ProMode - "@
    } else {
        Seq::empty()
    };
    let config_part = match config_name {
        Some(n) => if n != "config.ini"@ {
            " {"@ + n + "}"@
        } else {
            Seq::empty()
        },
        None => Seq::empty(),
    };
    "Hinjaku - "@ + pro_part + renderer_label(renderer) + config_part
}

fn append(v: &mut Vec<char>, s: &str)
    ensures
        final(v)@ == old(v)@ + s@,
{
    let cs = str_chars(s);
    let ghost start = v@;
    let mut i: usize = 0;
    while i < cs.len()
        invariant
            i <= cs.len(),
            cs@ == s@,
            v@ == start + cs@.take(i as int),
        decreases cs.len() - i,
    {
        v.push(cs[i]);
        i = i + 1;
        assert(v@ =~= start + cs@.take(i as int));
    }
    assert(cs@.take(i as int) =~= s@);
}

/// Builds the window title (for example `Hinjaku - ProMode - OpenGL {custom.ini}`).
pub fn build_window_title(config_name: Option<&str>, renderer: &RendererMode, pro_mode: bool) -> (r:
    String)
    ensures
        r@ == window_title(
            match config_name {
                Some(n) => Some(n@),
                None => None,
            },
            *renderer,
            pro_mode,
        ),
{
    let mut v: Vec<char> = Vec::new();
    append(&mut v, "Hinjaku - ");
    if pro_mode {
        append(&mut v, "ProMode - ");
    }
    match renderer {
        RendererMode::Glow => append(&mut v, "OpenGL"),
        RendererMode::Wgpu => append(&mut v, "Wgpu"),
    }
    match config_name {
        Some(n) => {
            if !str_eq(n, "config.ini") {
                append(&mut v, " {");
                append(&mut v, n);
                append(&mut v, "}");
            }
        },
        None => {},
    }
    let ghost name_view = match config_name {
        Some(n) => Some(n@),
        None => None,
    };
    assert(v@ =~= window_title(name_view, *renderer, pro_mode));
    string_of(&v)
}

/// The settings file a profile name stands for: `config.ini` without one, the name itself
/// when it already ends in `.ini` (any case), else the name with `.ini` added
/// (`sub` gives `sub.ini`).
pub open spec fn settings_file_name_of(name: Option<Seq<char>>) -> Seq<char> {
    match name {
        None => "config.ini"@,
        Some(n) => if ends_with_ignoring_case(n, seq!['.', 'i', 'n', 'i']) {
            n
        } else {
            n + seq!['.', 'i', 'n', 'i']
        },
    }
}

/// The name of the settings file for the profile named on the command line, if any.
pub fn settings_file_name(name: Option<&str>) -> (r: String)
    ensures
        r@ == settings_file_name_of(
            match name {
                Some(n) => Some(n@),
                None => None,
            },
        ),
{
    match name {
        None => String::from_str("config.ini"),
        Some(n) => {
            let mut v = str_chars(n);
            let ext = vec!['.', 'i', 'n', 'i'];
            assert(ext@ == seq!['.', 'i', 'n', 'i']);
            if !ends_with_ignoring_case_chars(&v, &ext) {
                v.push('.');
                v.push('i');
                v.push('n');
                v.push('i');
                assert(v@ =~= n@ + seq!['.', 'i', 'n', 'i']);
            }
            string_of(&v)
        },
    }
}

} // verus!
