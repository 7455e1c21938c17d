use vstd::prelude::*;
use crate::keys::KeyboardState;
use crate::text::str_eq;

verus! {

/// Something the viewer is asked to do.
#[derive(Clone, Copy, PartialEq, Eq, Debug, Structural)]
pub enum Command {
    Quit,
    TreeUp,
    TreeDown,
    TreeExpand,
    TreeCollapse,
    TreeActivate,
    HideTree,
    ToggleMaximized,
    ToggleFullscreen,
    ToggleBorderless,
    ExitToBase,
    PrevPage,
    NextPage,
    PrevPageSingle,
    NextPageSingle,
    FirstPage,
    LastPage,
    PrevDir,
    NextDir,
    ZoomIn,
    ZoomOut,
    ZoomReset,
    RotateCw,
    RotateCcw,
    ToggleManga,
    ToggleRtl,
    ToggleLinear,
    ToggleDebug,
    OpenKeyConfig,
    OpenExternal(usize),
    RevealExplorer,
    ToggleFit,
    ToggleBg,
    ShowSortSettings,
    ToggleLimiter,
    ToggleTree,
    WindSizeLock,
}

/// `[c]` when `b`, else nothing.
pub open spec fn when(b: bool, c: Command) -> Seq<Command> {
    if b {
        seq![c]
    } else {
        Seq::empty()
    }
}

/// The commands whose key was pressed, in order.
pub open spec fn chosen(flags: Seq<(bool, Command)>) -> Seq<Command>
    decreases flags.len(),
{
    if flags.len() == 0 {
        Seq::empty()
    } else if flags.last().0 {
        chosen(flags.drop_last()).push(flags.last().1)
    } else {
        chosen(flags.drop_last())
    }
}

/// While the folder tree has the focus: each key with the command it asks for, in order.
pub open spec fn tree_flags(k: KeyboardState) -> Seq<(bool, Command)> {
    seq![
        (k.up, Command::TreeUp),
        (k.dn, Command::TreeDown),
        (k.right, Command::TreeExpand),
        (k.left, Command::TreeCollapse),
        (k.enter, Command::TreeActivate),
        (k.esc, Command::HideTree),
        (k.toggle_tree, Command::HideTree),
    ]
}

/// In the viewer: each key with the command it asks for, in order.
pub open spec fn viewer_flags(k: KeyboardState) -> Seq<(bool, Command)> {
    seq![
        (k.enter, Command::ToggleMaximized),
        (k.fullscreen, Command::ToggleFullscreen),
        (k.borderless, Command::ToggleBorderless),
        (k.prev_page, Command::PrevPage),
        (k.next_page, Command::NextPage),
        (k.prev_page_single, Command::PrevPageSingle),
        (k.next_page_single, Command::NextPageSingle),
        (k.first_page, Command::FirstPage),
        (k.last_page, Command::LastPage),
        (k.prev_dir, Command::PrevDir),
        (k.next_dir, Command::NextDir),
        (k.zoom_in, Command::ZoomIn),
        (k.zoom_out, Command::ZoomOut),
        (k.zoom_reset, Command::ZoomReset),
        (k.rcw, Command::RotateCw),
        (k.rccw, Command::RotateCcw),
        (k.toggle_manga, Command::ToggleManga),
        (k.toggle_rtl, Command::ToggleRtl),
        (k.toggle_linear, Command::ToggleLinear),
        (k.toggle_debug, Command::ToggleDebug),
        (k.open_key_config, Command::OpenKeyConfig),
        (k.open_external_1, Command::OpenExternal(0)),
        (k.open_external_2, Command::OpenExternal(1)),
        (k.open_external_3, Command::OpenExternal(2)),
        (k.open_external_4, Command::OpenExternal(3)),
        (k.open_external_5, Command::OpenExternal(4)),
        (k.bs, Command::RevealExplorer),
        (k.toggle_fit, Command::ToggleFit),
        (k.toggle_bg, Command::ToggleBg),
        (k.sort_settings, Command::ShowSortSettings),
        (k.toggle_limiter, Command::ToggleLimiter),
        (k.toggle_tree, Command::ToggleTree),
    ]
}

/// The commands a frame's keys ask for, in the order they are carried out. Nothing but
/// leaving full screen (on Escape, unless a dialog is open) happens while a dialog is open
/// or the keyboard is taken (by a text field or by a key capture); otherwise Quit comes
/// first, then the tree's commands when the tree is shown, else the window and viewer
/// commands.
pub open spec fn commands_for(k: KeyboardState, tree_shown: bool, modal_open: bool, blocked: bool) -> Seq<Command> {
    let main = if !modal_open && !blocked {
        when(k.quit, Command::Quit) + chosen(if tree_shown {
            tree_flags(k)
        } else {
            viewer_flags(k)
        })
    } else {
        Seq::empty()
    };
    main + when(!modal_open && k.esc, Command::ExitToBase)
}

fn push_chosen(flags: &Vec<(bool, Command)>, v: &mut Vec<Command>)
    ensures
        final(v)@ == old(v)@ + chosen(flags@),
{
    let ghost start = v@;
    let mut i: usize = 0;
    assert(flags@.take(0) =~= Seq::<(bool, Command)>::empty());
    assert(start + chosen(flags@.take(0)) =~= start);
    while i < flags.len()
        invariant
            i <= flags@.len(),
            v@ == start + chosen(flags@.take(i as int)),
        decreases flags.len() - i,
    {
        let (on, c) = flags[i];
        let ghost before = v@;
        assert(flags@.take(i + 1).drop_last() =~= flags@.take(i as int));
        assert(flags@.take(i + 1).last() == (on, c));
        if on {
            v.push(c);
            assert(v@ =~= start + chosen(flags@.take(i + 1)));
        }
        i = i + 1;
    }
    assert(flags@.take(i as int) =~= flags@);
}

/// The commands a frame's keys ask for (see `commands_for`).
pub fn keyboard_commands(k: &KeyboardState, tree_shown: bool, modal_open: bool, blocked: bool) -> (r: Vec<Command>)
    ensures
        r@ == commands_for(*k, tree_shown, modal_open, blocked),
{
    let mut v: Vec<Command> = Vec::new();
    if !modal_open && !blocked {
        if k.quit {
            v.push(Command::Quit);
        }
        assert(v@ =~= when(k.quit, Command::Quit));
        if tree_shown {
            let flags = vec![
        (k.up, Command::TreeUp),
        (k.dn, Command::TreeDown),
        (k.right, Command::TreeExpand),
        (k.left, Command::TreeCollapse),
        (k.enter, Command::TreeActivate),
        (k.esc, Command::HideTree),
        (k.toggle_tree, Command::HideTree),
            ];
            assert(flags@ =~= tree_flags(*k));
            push_chosen(&flags, &mut v);
        } else {
            let flags = vec![
        (k.enter, Command::ToggleMaximized),
        (k.fullscreen, Command::ToggleFullscreen),
        (k.borderless, Command::ToggleBorderless),
        (k.prev_page, Command::PrevPage),
        (k.next_page, Command::NextPage),
        (k.prev_page_single, Command::PrevPageSingle),
        (k.next_page_single, Command::NextPageSingle),
        (k.first_page, Command::FirstPage),
        (k.last_page, Command::LastPage),
        (k.prev_dir, Command::PrevDir),
        (k.next_dir, Command::NextDir),
        (k.zoom_in, Command::ZoomIn),
        (k.zoom_out, Command::ZoomOut),
        (k.zoom_reset, Command::ZoomReset),
        (k.rcw, Command::RotateCw),
        (k.rccw, Command::RotateCcw),
        (k.toggle_manga, Command::ToggleManga),
        (k.toggle_rtl, Command::ToggleRtl),
        (k.toggle_linear, Command::ToggleLinear),
        (k.toggle_debug, Command::ToggleDebug),
        (k.open_key_config, Command::OpenKeyConfig),
        (k.open_external_1, Command::OpenExternal(0)),
        (k.open_external_2, Command::OpenExternal(1)),
        (k.open_external_3, Command::OpenExternal(2)),
        (k.open_external_4, Command::OpenExternal(3)),
        (k.open_external_5, Command::OpenExternal(4)),
        (k.bs, Command::RevealExplorer),
        (k.toggle_fit, Command::ToggleFit),
        (k.toggle_bg, Command::ToggleBg),
        (k.sort_settings, Command::ShowSortSettings),
        (k.toggle_limiter, Command::ToggleLimiter),
        (k.toggle_tree, Command::ToggleTree),
            ];
            assert(flags@ =~= viewer_flags(*k));
            push_chosen(&flags, &mut v);
        }
    } else {
        assert(v@ =~= Seq::<Command>::empty());
    }
    let ghost main = v@;
    if !modal_open && k.esc {
        v.push(Command::ExitToBase);
    }
    assert(v@ =~= main + when(!modal_open && k.esc, Command::ExitToBase));
    v
}

/// Actions a mouse button can be set to, by name.
pub open spec fn mouse_actions() -> Seq<(Seq<char>, Command)> {
    seq![
        ("PrevPage"@, Command::PrevPage),
        ("NextPage"@, Command::NextPage),
        ("PrevPageSingle"@, Command::PrevPageSingle),
        ("NextPageSingle"@, Command::NextPageSingle),
        ("PrevDir"@, Command::PrevDir),
        ("NextDir"@, Command::NextDir),
        ("ToggleFit"@, Command::ToggleFit),
        ("ToggleManga"@, Command::ToggleManga),
        ("ToggleMangaRtl"@, Command::ToggleRtl),
        ("WindSizeLock"@, Command::WindSizeLock),
    ]
}

/// The first entry of `table` named `s`.
pub open spec fn command_lookup(table: Seq<(Seq<char>, Command)>, s: Seq<char>) -> Option<Command>
    decreases table.len(),
{
    if table.len() == 0 {
        None
    } else if table[0].0 == s {
        Some(table[0].1)
    } else {
        command_lookup(table.drop_first(), s)
    }
}

pub open spec fn command_table_view(v: Seq<(&str, Command)>) -> Seq<(Seq<char>, Command)> {
    v.map_values(|p: (&str, Command)| (p.0@, p.1))
}

/// The command a mouse button set to `action` carries out (none for other names).
pub fn mouse_command(action: &str) -> (r: Option<Command>)
    ensures
        r == command_lookup(mouse_actions(), action@),
{
    let table = vec![
        ("PrevPage", Command::PrevPage),
        ("NextPage", Command::NextPage),
        ("PrevPageSingle", Command::PrevPageSingle),
        ("NextPageSingle", Command::NextPageSingle),
        ("PrevDir", Command::PrevDir),
        ("NextDir", Command::NextDir),
        ("ToggleFit", Command::ToggleFit),
        ("ToggleManga", Command::ToggleManga),
        ("ToggleMangaRtl", Command::ToggleRtl),
        ("WindSizeLock", Command::WindSizeLock),
    ];
    let ghost t = command_table_view(table@);
    assert(t =~= mouse_actions());
    let mut i: usize = 0;
    assert(t.skip(0) =~= t);
    while i < table.len()
        invariant
            i <= table@.len(),
            t == command_table_view(table@),
            t == mouse_actions(),
            command_lookup(t, action@) == command_lookup(t.skip(i as int), action@),
        decreases table.len() - i,
    {
        let (name, c) = table[i];
        assert(t[i as int] == (name@, c));
        assert(t.skip(i as int)[0] == t[i as int]);
        assert(t.skip(i as int).drop_first() =~= t.skip(i + 1));
        if str_eq(name, action) {
            return Some(c);
        }
        i = i + 1;
    }
    assert(t.skip(i as int).len() == 0);
    None
}

/// A command is among the chosen ones exactly when some pressed key asks for it.
proof fn lemma_chosen_contains(flags: Seq<(bool, Command)>, c: Command)
    ensures
        chosen(flags).contains(c) <==> exists|i: int| 0 <= i < flags.len() && #[trigger] flags[i] == (true, c),
    decreases flags.len(),
{
    if flags.len() > 0 {
        let rest = flags.drop_last();
        let cr = chosen(rest);
        let all = chosen(flags);
        lemma_chosen_contains(rest, c);
        if flags.last().0 {
            assert(all == cr.push(flags.last().1));
        } else {
            assert(all == cr);
        }
        if cr.contains(c) {
            let j = choose|j: int| 0 <= j < cr.len() && cr[j] == c;
            assert(all[j] == cr[j]);
            let i = choose|i: int| 0 <= i < rest.len() && #[trigger] rest[i] == (true, c);
            assert(flags[i] == rest[i]);
        }
        if flags.last() == (true, c) {
            assert(all[cr.len() as int] == c);
            assert(flags[flags.len() - 1] == (true, c));
        }
        if all.contains(c) {
            let j = choose|j: int| 0 <= j < all.len() && all[j] == c;
            if j < cr.len() {
                assert(cr[j] == c);
            } else {
                assert(flags.last() == (true, c));
            }
        }
        if exists|i: int| 0 <= i < flags.len() && #[trigger] flags[i] == (true, c) {
            let i = choose|i: int| 0 <= i < flags.len() && #[trigger] flags[i] == (true, c);
            if i < rest.len() {
                assert(rest[i] == flags[i]);
            } else {
                assert(flags.last() == (true, c));
            }
        }
    }
}

/// Where a command sits among the viewer's keys (see `viewer_flags`), -1 when it has
/// no key there.
spec fn viewer_slot(c: Command) -> int {
    match c {
        Command::ToggleMaximized => 0,
        Command::ToggleFullscreen => 1,
        Command::ToggleBorderless => 2,
        Command::PrevPage => 3,
        Command::NextPage => 4,
        Command::PrevPageSingle => 5,
        Command::NextPageSingle => 6,
        Command::FirstPage => 7,
        Command::LastPage => 8,
        Command::PrevDir => 9,
        Command::NextDir => 10,
        Command::ZoomIn => 11,
        Command::ZoomOut => 12,
        Command::ZoomReset => 13,
        Command::RotateCw => 14,
        Command::RotateCcw => 15,
        Command::ToggleManga => 16,
        Command::ToggleRtl => 17,
        Command::ToggleLinear => 18,
        Command::ToggleDebug => 19,
        Command::OpenKeyConfig => 20,
        Command::RevealExplorer => 26,
        Command::ToggleFit => 27,
        Command::ToggleBg => 28,
        Command::ShowSortSettings => 29,
        Command::ToggleLimiter => 30,
        Command::ToggleTree => 31,
        Command::OpenExternal(n) => if n < 5 {
            21 + n
        } else {
            -1
        },
        _ => -1,
    }
}

/// The command at place `i` among the viewer's keys.
spec fn viewer_cmd(i: int) -> Command {
    if i == 0 {
        Command::ToggleMaximized
    } else if i == 1 {
        Command::ToggleFullscreen
    } else if i == 2 {
        Command::ToggleBorderless
    } else if i == 3 {
        Command::PrevPage
    } else if i == 4 {
        Command::NextPage
    } else if i == 5 {
        Command::PrevPageSingle
    } else if i == 6 {
        Command::NextPageSingle
    } else if i == 7 {
        Command::FirstPage
    } else if i == 8 {
        Command::LastPage
    } else if i == 9 {
        Command::PrevDir
    } else if i == 10 {
        Command::NextDir
    } else if i == 11 {
        Command::ZoomIn
    } else if i == 12 {
        Command::ZoomOut
    } else if i == 13 {
        Command::ZoomReset
    } else if i == 14 {
        Command::RotateCw
    } else if i == 15 {
        Command::RotateCcw
    } else if i == 16 {
        Command::ToggleManga
    } else if i == 17 {
        Command::ToggleRtl
    } else if i == 18 {
        Command::ToggleLinear
    } else if i == 19 {
        Command::ToggleDebug
    } else if i == 20 {
        Command::OpenKeyConfig
    }     else if 21 <= i < 26 {
        Command::OpenExternal((i - 21) as usize)
    } else if i == 26 {
        Command::RevealExplorer
    } else if i == 27 {
        Command::ToggleFit
    } else if i == 28 {
        Command::ToggleBg
    } else if i == 29 {
        Command::ShowSortSettings
    } else if i == 30 {
        Command::ToggleLimiter
    } else if i == 31 {
        Command::ToggleTree
    } else {
        Command::Quit
    }
}

proof fn lemma_slot_inverse(c: Command)
    ensures
        viewer_slot(c) >= 0 ==> viewer_cmd(viewer_slot(c)) == c,
{
}

/// Each viewer key sits at the place `viewer_slot` gives its command.
proof fn lemma_viewer_slots(k: KeyboardState)
    ensures
        viewer_flags(k).len() == 32,
        forall|i: int| 0 <= i < 32 ==> #[trigger] viewer_flags(k)[i].1 == viewer_cmd(i),
{
    let f = viewer_flags(k);
    assert forall|i: int| 0 <= i < 32 implies #[trigger] f[i].1 == viewer_cmd(i) by {
        if i == 0 {} else if i == 1 {} else if i == 2 {} else if i == 3 {} else if i == 4 {} else if i == 5 {} else if i == 6 {} else if i == 7 {} else if i == 8 {} else if i == 9 {} else if i == 10 {} else if i == 11 {} else if i == 12 {} else if i == 13 {} else if i == 14 {} else if i == 15 {} else if i == 16 {} else if i == 17 {} else if i == 18 {} else if i == 19 {} else if i == 20 {} else if i == 21 {} else if i == 22 {} else if i == 23 {} else if i == 24 {} else if i == 25 {} else if i == 26 {} else if i == 27 {} else if i == 28 {} else if i == 29 {} else if i == 30 {} else {}
    }
}

/// Outside the tree, with no dialog and the keyboard free, a command with a viewer key is
/// asked for exactly when that key is pressed.
proof fn lemma_viewer_key(k: KeyboardState, c: Command)
    requires
        0 <= viewer_slot(c),
    ensures
        commands_for(k, false, false, false).contains(c) == viewer_flags(k)[viewer_slot(c)].0,
{
    let f = viewer_flags(k);
    let r = commands_for(k, false, false, false);
    let a = when(k.quit, Command::Quit);
    let b = chosen(f);
    let e = when(k.esc, Command::ExitToBase);
    assert(r == a + b + e);
    lemma_viewer_slots(k);
    lemma_chosen_contains(f, c);
    lemma_slot_inverse(c);
    let s = viewer_slot(c);
    assert(f[s].1 == c);
    if r.contains(c) {
        let j = choose|j: int| 0 <= j < r.len() && r[j] == c;
        if j < a.len() {
            assert(r[j] == a[j]);
        } else if j < a.len() + b.len() {
            assert(r[j] == b[j - a.len()]);
            assert(b.contains(c));
            let i = choose|i: int| 0 <= i < f.len() && #[trigger] f[i] == (true, c);
            lemma_slot_inverse(f[i].1);
            assert(viewer_cmd(i) == c);
        } else {
            assert(r[j] == e[j - a.len() - b.len()]);
        }
    }
    if f[s].0 {
        assert(f[s] == (true, c));
        let j = choose|j: int| 0 <= j < b.len() && b[j] == c;
        assert(r[a.len() + j] == b[j]);
    }
}

/// In the viewer (no tree, no dialog, keyboard free) each key asks for its own command:
/// the command is carried out exactly when its key is pressed (`prev_dir`, PageUp by
/// default, goes to the previous folder, `next_dir` to the next, and so on).
/// The key and command at each place among the viewer's keys.
proof fn lemma_viewer_flag_values(k: KeyboardState)
    ensures
        viewer_flags(k)[0] == (k.enter, Command::ToggleMaximized),
        viewer_slot(Command::ToggleMaximized) == 0,
        viewer_flags(k)[1] == (k.fullscreen, Command::ToggleFullscreen),
        viewer_slot(Command::ToggleFullscreen) == 1,
        viewer_flags(k)[2] == (k.borderless, Command::ToggleBorderless),
        viewer_slot(Command::ToggleBorderless) == 2,
        viewer_flags(k)[3] == (k.prev_page, Command::PrevPage),
        viewer_slot(Command::PrevPage) == 3,
        viewer_flags(k)[4] == (k.next_page, Command::NextPage),
        viewer_slot(Command::NextPage) == 4,
        viewer_flags(k)[5] == (k.prev_page_single, Command::PrevPageSingle),
        viewer_slot(Command::PrevPageSingle) == 5,
        viewer_flags(k)[6] == (k.next_page_single, Command::NextPageSingle),
        viewer_slot(Command::NextPageSingle) == 6,
        viewer_flags(k)[7] == (k.first_page, Command::FirstPage),
        viewer_slot(Command::FirstPage) == 7,
        viewer_flags(k)[8] == (k.last_page, Command::LastPage),
        viewer_slot(Command::LastPage) == 8,
        viewer_flags(k)[9] == (k.prev_dir, Command::PrevDir),
        viewer_slot(Command::PrevDir) == 9,
        viewer_flags(k)[10] == (k.next_dir, Command::NextDir),
        viewer_slot(Command::NextDir) == 10,
        viewer_flags(k)[11] == (k.zoom_in, Command::ZoomIn),
        viewer_slot(Command::ZoomIn) == 11,
        viewer_flags(k)[12] == (k.zoom_out, Command::ZoomOut),
        viewer_slot(Command::ZoomOut) == 12,
        viewer_flags(k)[13] == (k.zoom_reset, Command::ZoomReset),
        viewer_slot(Command::ZoomReset) == 13,
        viewer_flags(k)[14] == (k.rcw, Command::RotateCw),
        viewer_slot(Command::RotateCw) == 14,
        viewer_flags(k)[15] == (k.rccw, Command::RotateCcw),
        viewer_slot(Command::RotateCcw) == 15,
        viewer_flags(k)[16] == (k.toggle_manga, Command::ToggleManga),
        viewer_slot(Command::ToggleManga) == 16,
        viewer_flags(k)[17] == (k.toggle_rtl, Command::ToggleRtl),
        viewer_slot(Command::ToggleRtl) == 17,
        viewer_flags(k)[18] == (k.toggle_linear, Command::ToggleLinear),
        viewer_slot(Command::ToggleLinear) == 18,
        viewer_flags(k)[19] == (k.toggle_debug, Command::ToggleDebug),
        viewer_slot(Command::ToggleDebug) == 19,
        viewer_flags(k)[20] == (k.open_key_config, Command::OpenKeyConfig),
        viewer_slot(Command::OpenKeyConfig) == 20,
        viewer_flags(k)[21] == (k.open_external_1, Command::OpenExternal(0)),
        viewer_slot(Command::OpenExternal(0)) == 21,
        viewer_flags(k)[22] == (k.open_external_2, Command::OpenExternal(1)),
        viewer_slot(Command::OpenExternal(1)) == 22,
        viewer_flags(k)[23] == (k.open_external_3, Command::OpenExternal(2)),
        viewer_slot(Command::OpenExternal(2)) == 23,
        viewer_flags(k)[24] == (k.open_external_4, Command::OpenExternal(3)),
        viewer_slot(Command::OpenExternal(3)) == 24,
        viewer_flags(k)[25] == (k.open_external_5, Command::OpenExternal(4)),
        viewer_slot(Command::OpenExternal(4)) == 25,
        viewer_flags(k)[26] == (k.bs, Command::RevealExplorer),
        viewer_slot(Command::RevealExplorer) == 26,
        viewer_flags(k)[27] == (k.toggle_fit, Command::ToggleFit),
        viewer_slot(Command::ToggleFit) == 27,
        viewer_flags(k)[28] == (k.toggle_bg, Command::ToggleBg),
        viewer_slot(Command::ToggleBg) == 28,
        viewer_flags(k)[29] == (k.sort_settings, Command::ShowSortSettings),
        viewer_slot(Command::ShowSortSettings) == 29,
        viewer_flags(k)[30] == (k.toggle_limiter, Command::ToggleLimiter),
        viewer_slot(Command::ToggleLimiter) == 30,
        viewer_flags(k)[31] == (k.toggle_tree, Command::ToggleTree),
        viewer_slot(Command::ToggleTree) == 31,
{
}

/// In the viewer (no tree, no dialog, keyboard free) each key asks for its own command:
/// the command is carried out exactly when its key is pressed (`prev_dir`, PageUp by
/// default, goes to the previous folder, `next_dir` to the next, and so on).
pub proof fn law_viewer_keys(k: KeyboardState)
    ensures
        commands_for(k, false, false, false).contains(Command::ToggleMaximized) == k.enter,
        commands_for(k, false, false, false).contains(Command::ToggleFullscreen) == k.fullscreen,
        commands_for(k, false, false, false).contains(Command::ToggleBorderless) == k.borderless,
        commands_for(k, false, false, false).contains(Command::PrevPage) == k.prev_page,
        commands_for(k, false, false, false).contains(Command::NextPage) == k.next_page,
        commands_for(k, false, false, false).contains(Command::PrevPageSingle) == k.prev_page_single,
        commands_for(k, false, false, false).contains(Command::NextPageSingle) == k.next_page_single,
        commands_for(k, false, false, false).contains(Command::FirstPage) == k.first_page,
        commands_for(k, false, false, false).contains(Command::LastPage) == k.last_page,
        commands_for(k, false, false, false).contains(Command::PrevDir) == k.prev_dir,
        commands_for(k, false, false, false).contains(Command::NextDir) == k.next_dir,
        commands_for(k, false, false, false).contains(Command::ZoomIn) == k.zoom_in,
        commands_for(k, false, false, false).contains(Command::ZoomOut) == k.zoom_out,
        commands_for(k, false, false, false).contains(Command::ZoomReset) == k.zoom_reset,
        commands_for(k, false, false, false).contains(Command::RotateCw) == k.rcw,
        commands_for(k, false, false, false).contains(Command::RotateCcw) == k.rccw,
        commands_for(k, false, false, false).contains(Command::ToggleManga) == k.toggle_manga,
        commands_for(k, false, false, false).contains(Command::ToggleRtl) == k.toggle_rtl,
        commands_for(k, false, false, false).contains(Command::ToggleLinear) == k.toggle_linear,
        commands_for(k, false, false, false).contains(Command::ToggleDebug) == k.toggle_debug,
        commands_for(k, false, false, false).contains(Command::OpenKeyConfig) == k.open_key_config,
        commands_for(k, false, false, false).contains(Command::OpenExternal(0)) == k.open_external_1,
        commands_for(k, false, false, false).contains(Command::OpenExternal(1)) == k.open_external_2,
        commands_for(k, false, false, false).contains(Command::OpenExternal(2)) == k.open_external_3,
        commands_for(k, false, false, false).contains(Command::OpenExternal(3)) == k.open_external_4,
        commands_for(k, false, false, false).contains(Command::OpenExternal(4)) == k.open_external_5,
        commands_for(k, false, false, false).contains(Command::RevealExplorer) == k.bs,
        commands_for(k, false, false, false).contains(Command::ToggleFit) == k.toggle_fit,
        commands_for(k, false, false, false).contains(Command::ToggleBg) == k.toggle_bg,
        commands_for(k, false, false, false).contains(Command::ShowSortSettings) == k.sort_settings,
        commands_for(k, false, false, false).contains(Command::ToggleLimiter) == k.toggle_limiter,
        commands_for(k, false, false, false).contains(Command::ToggleTree) == k.toggle_tree,
{
    lemma_viewer_flag_values(k);
    lemma_viewer_key(k, Command::ToggleMaximized);
    lemma_viewer_key(k, Command::ToggleFullscreen);
    lemma_viewer_key(k, Command::ToggleBorderless);
    lemma_viewer_key(k, Command::PrevPage);
    lemma_viewer_key(k, Command::NextPage);
    lemma_viewer_key(k, Command::PrevPageSingle);
    lemma_viewer_key(k, Command::NextPageSingle);
    lemma_viewer_key(k, Command::FirstPage);
    lemma_viewer_key(k, Command::LastPage);
    lemma_viewer_key(k, Command::PrevDir);
    lemma_viewer_key(k, Command::NextDir);
    lemma_viewer_key(k, Command::ZoomIn);
    lemma_viewer_key(k, Command::ZoomOut);
    lemma_viewer_key(k, Command::ZoomReset);
    lemma_viewer_key(k, Command::RotateCw);
    lemma_viewer_key(k, Command::RotateCcw);
    lemma_viewer_key(k, Command::ToggleManga);
    lemma_viewer_key(k, Command::ToggleRtl);
    lemma_viewer_key(k, Command::ToggleLinear);
    lemma_viewer_key(k, Command::ToggleDebug);
    lemma_viewer_key(k, Command::OpenKeyConfig);
    lemma_viewer_key(k, Command::OpenExternal(0));
    lemma_viewer_key(k, Command::OpenExternal(1));
    lemma_viewer_key(k, Command::OpenExternal(2));
    lemma_viewer_key(k, Command::OpenExternal(3));
    lemma_viewer_key(k, Command::OpenExternal(4));
    lemma_viewer_key(k, Command::RevealExplorer);
    lemma_viewer_key(k, Command::ToggleFit);
    lemma_viewer_key(k, Command::ToggleBg);
    lemma_viewer_key(k, Command::ShowSortSettings);
    lemma_viewer_key(k, Command::ToggleLimiter);
    lemma_viewer_key(k, Command::ToggleTree);
}

/// With the folder tree shown (no dialog, keyboard free) the arrows move in the tree,
/// Enter opens the selection, and Escape or the tree key hides the tree; each command
/// comes exactly when one of its keys is pressed.
#[verifier::spinoff_prover]
pub proof fn law_tree_keys(k: KeyboardState)
    ensures
        commands_for(k, true, false, false).contains(Command::TreeUp) == k.up,
        commands_for(k, true, false, false).contains(Command::TreeDown) == k.dn,
        commands_for(k, true, false, false).contains(Command::TreeExpand) == k.right,
        commands_for(k, true, false, false).contains(Command::TreeCollapse) == k.left,
        commands_for(k, true, false, false).contains(Command::TreeActivate) == k.enter,
        commands_for(k, true, false, false).contains(Command::HideTree) == (k.esc || k.toggle_tree),
{
    assert(commands_for(k, true, false, false).contains(Command::TreeUp) == k.up) by {
        lemma_tree_key(k, Command::TreeUp);
    }
    assert(commands_for(k, true, false, false).contains(Command::TreeDown) == k.dn) by {
        lemma_tree_key(k, Command::TreeDown);
    }
    assert(commands_for(k, true, false, false).contains(Command::TreeExpand) == k.right) by {
        lemma_tree_key(k, Command::TreeExpand);
    }
    assert(commands_for(k, true, false, false).contains(Command::TreeCollapse) == k.left) by {
        lemma_tree_key(k, Command::TreeCollapse);
    }
    assert(commands_for(k, true, false, false).contains(Command::TreeActivate) == k.enter) by {
        lemma_tree_key(k, Command::TreeActivate);
    }
    assert(commands_for(k, true, false, false).contains(Command::HideTree) == (k.esc || k.toggle_tree)) by {
        lemma_tree_key(k, Command::HideTree);
    }
}

/// In the tree, a tree command is asked for exactly when one of the tree's keys for it is
/// pressed.
proof fn lemma_tree_key(k: KeyboardState, c: Command)
    requires
        c != Command::Quit,
        c != Command::ExitToBase,
    ensures
        commands_for(k, true, false, false).contains(c) == exists|i: int|
            0 <= i < 7 && #[trigger] tree_flags(k)[i] == (true, c),
{
    let f = tree_flags(k);
    let r = commands_for(k, true, false, false);
    let a = when(k.quit, Command::Quit);
    let b = chosen(f);
    let e = when(k.esc, Command::ExitToBase);
    assert(r == a + b + e);
    lemma_chosen_contains(f, c);
    if r.contains(c) {
        let j = choose|j: int| 0 <= j < r.len() && r[j] == c;
        if j < a.len() {
            assert(r[j] == a[j]);
        } else if j < a.len() + b.len() {
            assert(r[j] == b[j - a.len()]);
        } else {
            assert(r[j] == e[j - a.len() - b.len()]);
        }
    }
    if b.contains(c) {
        let j = choose|j: int| 0 <= j < b.len() && b[j] == c;
        assert(r[a.len() + j] == b[j]);
    }
}

} // verus!
