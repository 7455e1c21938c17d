use vstd::prelude::*;
use crate::config::strings_view;
use crate::text::{str_chars, string_of, join, decimal, decimal_chars};

verus! {

/// `str::trim_matches('"')`: `s` without the `"` characters at either end.
pub open spec fn strip_quotes(s: Seq<char>) -> Seq<char>
    decreases s.len(),
{
    if s.len() == 0 {
        s
    } else if s[0] == '"' {
        strip_quotes(s.drop_first())
    } else if s.last() == '"' {
        strip_quotes(s.drop_last())
    } else {
        s
    }
}

/// A path in double quotes, quotes already around it dropped first.
pub open spec fn quoted(s: Seq<char>) -> Seq<char> {
    seq!['"'] + strip_quotes(s) + seq!['"']
}

/// `%P`, `%p`, `%F`, `%f`: the placeholders for the path including the entry inside an archive.
pub open spec fn is_view_letter(c: char) -> bool {
    c == 'P' || c == 'p' || c == 'F' || c == 'f'
}

/// `%A`, `%a`, `%D`, `%d`: the placeholders for the path on disk.
pub open spec fn is_disk_letter(c: char) -> bool {
    c == 'A' || c == 'a' || c == 'D' || c == 'd'
}

/// An argument template with the path placeholders filled in, read left to right in one
/// pass over the template: `%P`, `%p`, `%F`, `%f` stand for the path including the entry
/// inside an archive (`v`), `%A`, `%a`, `%D`, `%d` for the path on disk (`p`); every other
/// character is kept. The inserted paths are not read again.
pub open spec fn filled(arg: Seq<char>, v: Seq<char>, p: Seq<char>) -> Seq<char>
    decreases arg.len(),
{
    if arg.len() < 2 {
        arg
    } else if arg[0] == '%' && is_view_letter(arg[1]) {
        v + filled(arg.skip(2), v, p)
    } else if arg[0] == '%' && is_disk_letter(arg[1]) {
        p + filled(arg.skip(2), v, p)
    } else {
        seq![arg[0]] + filled(arg.drop_first(), v, p)
    }
}

/// The parameter line handed to the shell on Windows: the quoted entry path when there is no
/// template, else each template argument filled with the quoted paths, joined by spaces.
pub open spec fn shell_params(args: Seq<Seq<char>>, v: Seq<char>, p: Seq<char>) -> Seq<char> {
    if args.len() == 0 {
        quoted(v)
    } else {
        join(args.map_values(|a: Seq<char>| filled(a, quoted(v), quoted(p))), " "@)
    }
}

/// The arguments of the started program elsewhere: the path on disk when there is no
/// template, else each template argument filled with the bare paths.
pub open spec fn command_args_of(args: Seq<Seq<char>>, v: Seq<char>, p: Seq<char>) -> Seq<Seq<char>> {
    if args.len() == 0 {
        seq![p]
    } else {
        args.map_values(|a: Seq<char>| filled(a, v, p))
    }
}

fn strip_quotes_chars(v: &Vec<char>) -> (r: Vec<char>)
    ensures
        r@ == strip_quotes(v@),
{
    let mut a: usize = 0;
    let mut b: usize = v.len();
    assert(v@.subrange(0, v@.len() as int) =~= v@);
    while a < b && (v[a] == '"' || v[b - 1] == '"')
        invariant
            a <= b <= v@.len(),
            strip_quotes(v@) == strip_quotes(v@.subrange(a as int, b as int)),
        decreases b - a,
    {
        let ghost s = v@.subrange(a as int, b as int);
        if v[a] == '"' {
            assert(s[0] == '"');
            assert(s.drop_first() =~= v@.subrange(a + 1, b as int));
            a = a + 1;
        } else {
            assert(s.last() == '"');
            assert(s.drop_last() =~= v@.subrange(a as int, b - 1));
            b = b - 1;
        }
    }
    let mut r: Vec<char> = Vec::new();
    let mut k: usize = a;
    while k < b
        invariant
            a <= k <= b <= v@.len(),
            r@ == v@.subrange(a as int, k as int),
        decreases b - k,
    {
        r.push(v[k]);
        k = k + 1;
    }
    proof {
        let s = v@.subrange(a as int, b as int);
        if s.len() > 0 {
            assert(s[0] != '"' && s.last() != '"');
        }
    }
    r
}

/// A path in double quotes (quotes already around it dropped first).
pub fn quote_path(s: &str) -> (r: String)
    ensures
        r@ == quoted(s@),
{
    let v = str_chars(s);
    let inner = strip_quotes_chars(&v);
    let mut out: Vec<char> = Vec::new();
    out.push('"');
    let mut i: usize = 0;
    while i < inner.len()
        invariant
            i <= inner@.len(),
            out@ == seq!['"'] + inner@.take(i as int),
        decreases inner.len() - i,
    {
        out.push(inner[i]);
        i = i + 1;
        assert(out@ =~= seq!['"'] + inner@.take(i as int));
    }
    out.push('"');
    assert(inner@.take(i as int) =~= inner@);
    assert(out@ =~= quoted(s@));
    string_of(&out)
}

/// One step of `filled` read at position `i` of the template.
proof fn lemma_filled_step(s: Seq<char>, v: Seq<char>, p: Seq<char>, i: int)
    requires
        0 <= i <= s.len(),
    ensures
        i + 2 > s.len() ==> filled(s.skip(i), v, p) == s.skip(i),
        i + 2 <= s.len() && s[i] == '%' && is_view_letter(s[i + 1]) ==> filled(s.skip(i), v, p)
            == v + filled(s.skip(i + 2), v, p),
        i + 2 <= s.len() && s[i] == '%' && !is_view_letter(s[i + 1]) && is_disk_letter(s[i + 1])
            ==> filled(s.skip(i), v, p) == p + filled(s.skip(i + 2), v, p),
        i + 2 <= s.len() && !(s[i] == '%' && (is_view_letter(s[i + 1]) || is_disk_letter(s[i + 1])))
            ==> filled(s.skip(i), v, p) == seq![s[i]] + filled(s.skip(i + 1), v, p),
{
    let t = s.skip(i);
    if i + 2 <= s.len() {
        assert(t[0] == s[i]);
        assert(t[1] == s[i + 1]);
        assert(t.skip(2) =~= s.skip(i + 2));
        assert(t.drop_first() =~= s.skip(i + 1));
    }
}

fn push_all(out: &mut Vec<char>, src: &Vec<char>)
    ensures
        final(out)@ == old(out)@ + src@,
{
    let mut k: usize = 0;
    while k < src.len()
        invariant
            k <= src@.len(),
            out@ == old(out)@ + src@.take(k as int),
        decreases src.len() - k,
    {
        out.push(src[k]);
        k = k + 1;
        assert(out@ =~= old(out)@ + src@.take(k as int));
    }
    assert(src@.take(k as int) =~= src@);
}

/// An argument template with its placeholders filled (see `filled`).
pub fn fill_template(arg: &str, v: &Vec<char>, p: &Vec<char>) -> (r: Vec<char>)
    ensures
        r@ == filled(arg@, v@, p@),
{
    let s = str_chars(arg);
    let mut out: Vec<char> = Vec::new();
    let mut i: usize = 0;
    assert(s@.skip(0) =~= s@);
    while i < s.len()
        invariant
            i <= s@.len(),
            s@ == arg@,
            filled(arg@, v@, p@) == out@ + filled(s@.skip(i as int), v@, p@),
        decreases s.len() - i,
    {
        proof {
            lemma_filled_step(s@, v@, p@, i as int);
        }
        if i + 1 < s.len() && s[i] == '%' && (s[i + 1] == 'P' || s[i + 1] == 'p' || s[i + 1] == 'F'
            || s[i + 1] == 'f') {
            let ghost before = out@;
            push_all(&mut out, v);
            assert(before + (v@ + filled(s@.skip(i + 2), v@, p@)) =~= out@ + filled(s@.skip(i + 2), v@, p@));
            i = i + 2;
        } else if i + 1 < s.len() && s[i] == '%' && (s[i + 1] == 'A' || s[i + 1] == 'a' || s[i + 1]
            == 'D' || s[i + 1] == 'd') {
            let ghost before = out@;
            push_all(&mut out, p);
            assert(before + (p@ + filled(s@.skip(i + 2), v@, p@)) =~= out@ + filled(s@.skip(i + 2), v@, p@));
            i = i + 2;
        } else if i + 1 < s.len() {
            let ghost before = out@;
            out.push(s[i]);
            assert(before + (seq![s@[i as int]] + filled(s@.skip(i + 1), v@, p@)) =~= out@ + filled(s@.skip(i + 1), v@, p@));
            i = i + 1;
        } else {
            let ghost before = out@;
            out.push(s[i]);
            assert(s@.skip(i as int) =~= seq![s@[i as int]]);
            assert(s@.skip(i + 1) =~= Seq::<char>::empty());
            assert(filled(Seq::<char>::empty(), v@, p@) == Seq::<char>::empty());
            assert(out@ + filled(s@.skip(i + 1), v@, p@) =~= before + s@.skip(i as int));
            i = i + 1;
        }
    }
    assert(s@.skip(i as int) =~= Seq::<char>::empty());
    assert(filled(Seq::<char>::empty(), v@, p@) == Seq::<char>::empty());
    assert(out@ + Seq::<char>::empty() =~= out@);
    out
}

/// The parameter line for the Windows shell (see `shell_params`).
pub fn shell_parameters(args_tmpl: &Vec<String>, path_v: &str, path_p: &str) -> (r: String)
    ensures
        r@ == shell_params(strings_view(args_tmpl@), path_v@, path_p@),
{
    let qv = quote_path(path_v);
    if args_tmpl.len() == 0 {
        return qv;
    }
    let qp = quote_path(path_p);
    let qvc = str_chars(qv.as_str());
    let qpc = str_chars(qp.as_str());
    let ghost av = strings_view(args_tmpl@);
    let ghost pieces = av.map_values(|a: Seq<char>| filled(a, quoted(path_v@), quoted(path_p@)));
    let mut out: Vec<char> = Vec::new();
    let mut i: usize = 0;
    while i < args_tmpl.len()
        invariant
            1 <= args_tmpl@.len(),
            i <= args_tmpl@.len(),
            av == strings_view(args_tmpl@),
            pieces == av.map_values(|a: Seq<char>| filled(a, quoted(path_v@), quoted(path_p@))),
            qvc@ == quoted(path_v@),
            qpc@ == quoted(path_p@),
            i > 0 ==> out@ == join(pieces.take(i as int), " "@),
            i == 0 ==> out@.len() == 0,
        decreases args_tmpl.len() - i,
    {
        let filled_arg = fill_template(args_tmpl[i].as_str(), &qvc, &qpc);
        assert(filled_arg@ == pieces[i as int]);
        let ghost before = out@;
        if i > 0 {
            out.push(' ');
        }
        let mut k: usize = 0;
        let ghost mid = out@;
        while k < filled_arg.len()
            invariant
                k <= filled_arg@.len(),
                out@ == mid + filled_arg@.take(k as int),
            decreases filled_arg.len() - k,
        {
            out.push(filled_arg[k]);
            k = k + 1;
            assert(out@ =~= mid + filled_arg@.take(k as int));
        }
        assert(filled_arg@.take(k as int) =~= filled_arg@);
        proof {
            reveal_strlit(" ");
            let t = pieces.take(i + 1);
            if i == 0 {
                assert(t =~= seq![pieces[0]]);
                assert(join(t, " "@) == pieces[0]);
                assert(out@ =~= pieces[0]);
            } else {
                assert(t.drop_last() =~= pieces.take(i as int));
                assert(t.last() == pieces[i as int]);
                assert(join(t, " "@) == join(t.drop_last(), " "@) + " "@ + t.last());
                assert(out@ =~= before + seq![' '] + pieces[i as int]);
                assert(" "@ =~= seq![' ']);
            }
        }
        i = i + 1;
    }
    assert(pieces.take(i as int) =~= pieces);
    string_of(&out)
}

/// The arguments for the started program outside Windows (see `command_args_of`).
pub fn command_args(args_tmpl: &Vec<String>, path_v: &str, path_p: &str) -> (r: Vec<String>)
    ensures
        strings_view(r@) == command_args_of(strings_view(args_tmpl@), path_v@, path_p@),
{
    let mut out: Vec<String> = Vec::new();
    if args_tmpl.len() == 0 {
        out.push(String::from_str(path_p));
        assert(strings_view(out@) =~= seq![path_p@]);
        return out;
    }
    let vc = str_chars(path_v);
    let pc = str_chars(path_p);
    let ghost av = strings_view(args_tmpl@);
    let mut i: usize = 0;
    while i < args_tmpl.len()
        invariant
            i <= args_tmpl@.len(),
            av == strings_view(args_tmpl@),
            vc@ == path_v@,
            pc@ == path_p@,
            strings_view(out@) == av.map_values(|a: Seq<char>| filled(a, path_v@, path_p@)).take(i as int),
        decreases args_tmpl.len() - i,
    {
        let f = fill_template(args_tmpl[i].as_str(), &vc, &pc);
        let ghost before = strings_view(out@);
        out.push(string_of(&f));
        assert(strings_view(out@) =~= before.push(filled(av[i as int], path_v@, path_p@)));
        i = i + 1;
        assert(strings_view(out@) =~= av.map_values(|a: Seq<char>| filled(a, path_v@, path_p@)).take(i as int));
    }
    assert(av.map_values(|a: Seq<char>| filled(a, path_v@, path_p@)).take(i as int) =~= av.map_values(
        |a: Seq<char>| filled(a, path_v@, path_p@),
    ));
    out
}

/// Message shown when no program is set for an external application.
pub open spec fn no_program_message() -> Seq<char> {
    "実行プログラムが指定されていません。"@
}

/// Refuses an empty program path.
pub fn check_program(exe: &str) -> (r: Result<(), String>)
    ensures
        r is Err <==> exe@.len() == 0,
        r matches Err(m) ==> m@ == no_program_message(),
{
    let v = str_chars(exe);
    if v.len() == 0 {
        Err(String::from_str("実行プログラムが指定されていません。"))
    } else {
        Ok(())
    }
}

/// Signed decimal notation (`isize::to_string`).
pub open spec fn signed_decimal(n: int) -> Seq<char> {
    if n < 0 {
        seq!['-'] + decimal((-n) as nat)
    } else {
        decimal(n as nat)
    }
}

/// The message for a failed shell launch, by the code the shell returned.
pub open spec fn launch_error_text(code: int, exe: Seq<char>) -> Seq<char> {
    if code == 2 {
        "ファイルが見つかりません: "@ + exe
    } else if code == 3 {
        "パスが見つかりません: "@ + exe
    } else if code == 5 {
        "アクセスが拒否されました。"@
    } else if code == 31 {
        "指定された拡張子の関連付けがありません。"@
    } else {
        "外部アプリの起動に失敗しました (Code: "@ + signed_decimal(code) + ")"@
    }
}

fn concat(a: &str, b: &Vec<char>, c: &str) -> (r: String)
    ensures
        r@ == a@ + b@ + c@,
{
    let av = str_chars(a);
    let cv = str_chars(c);
    let mut out: Vec<char> = Vec::new();
    let mut i: usize = 0;
    while i < av.len()
        invariant
            i <= av@.len(),
            out@ == av@.take(i as int),
        decreases av.len() - i,
    {
        out.push(av[i]);
        i = i + 1;
        assert(out@ =~= av@.take(i as int));
    }
    assert(av@.take(i as int) =~= av@);
    let ghost o1 = out@;
    let mut j: usize = 0;
    while j < b.len()
        invariant
            j <= b@.len(),
            out@ == o1 + b@.take(j as int),
        decreases b.len() - j,
    {
        out.push(b[j]);
        j = j + 1;
        assert(out@ =~= o1 + b@.take(j as int));
    }
    assert(b@.take(j as int) =~= b@);
    let ghost o2 = out@;
    let mut k: usize = 0;
    while k < cv.len()
        invariant
            k <= cv@.len(),
            out@ == o2 + cv@.take(k as int),
        decreases cv.len() - k,
    {
        out.push(cv[k]);
        k = k + 1;
        assert(out@ =~= o2 + cv@.take(k as int));
    }
    assert(cv@.take(k as int) =~= cv@);
    assert(out@ =~= a@ + b@ + c@);
    string_of(&out)
}

/// The message for a failed shell launch (see `launch_error_text`).
pub fn launch_error_message(code: isize, exe: &str) -> (r: String)
    ensures
        r@ == launch_error_text(code as int, exe@),
{
    let e = str_chars(exe);
    proof {
        reveal_strlit("");
    }
    assert(""@ =~= Seq::<char>::empty());
    assert(exe@ + ""@ =~= exe@);
    if code == 2 {
        concat("ファイルが見つかりません: ", &e, "")
    } else if code == 3 {
        concat("パスが見つかりません: ", &e, "")
    } else if code == 5 {
        String::from_str("アクセスが拒否されました。")
    } else if code == 31 {
        String::from_str("指定された拡張子の関連付けがありません。")
    } else {
        let digits = if code < 0 {
            let mag: u64 = if code == isize::MIN {
                (isize::MAX as u64) + 1
            } else {
                (-code) as u64
            };
            let mut d = vec!['-'];
            let dd = decimal_chars(mag);
            let mut i: usize = 0;
            while i < dd.len()
                invariant
                    i <= dd@.len(),
                    d@ == seq!['-'] + dd@.take(i as int),
                decreases dd.len() - i,
            {
                d.push(dd[i]);
                i = i + 1;
                assert(d@ =~= seq!['-'] + dd@.take(i as int));
            }
            assert(dd@.take(i as int) =~= dd@);
            d
        } else {
            decimal_chars(code as u64)
        };
        assert(digits@ == signed_decimal(code as int));
        proof {
            reveal_strlit("");
        }
        assert(""@ =~= Seq::<char>::empty());
        concat("外部アプリの起動に失敗しました (Code: ", &digits, ")")
    }
}

} // verus!
