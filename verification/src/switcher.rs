//! The switcher's state between frames: the window list, the search over
//! it, the selected entry, and whether the switcher window is shown and
//! focused; and what it decides on each event.

use vstd::prelude::*;
use vstd::arithmetic::div_mod::{lemma_add_mod_noop, lemma_mod_self_0, lemma_small_mod};

use crate::config::FilterType;
use crate::filter::{filter_windows, filtered, lemma_empty_search_keeps_all};
use crate::window::{views_of, WindowInfo};

verus! {

/// Events that other threads send to the switcher.
#[derive(Debug, Clone)]
pub enum AppEvent {
    /// Show the switcher (the hotkey); a shown switcher is focused again.
    ToggleVisibility,
    /// Show the switcher (tray or hotkey); a shown switcher is focused again.
    ShowWindow,
    /// A new window list was read.
    RefreshWindows(Vec<WindowInfo>),
    /// Quit the program.
    Exit,
}

/// What the switcher asks its window and the system to do.
#[derive(Clone, Copy, Debug, PartialEq, Eq, Structural)]
pub enum WindowCommand {
    /// Place the switcher at the right edge of the work area and show it.
    Position,
    /// Hide the switcher window.
    Hide,
    /// Bring the switcher window to the foreground again.
    Refocus,
    /// Bring the window with this handle to the foreground.
    Activate(isize),
    /// Draw the switcher again.
    Redraw,
    /// Quit the program.
    Exit,
}

/// The keys pressed in one frame that the switcher acts on.
#[derive(Clone, Copy, Debug, PartialEq, Eq, Structural)]
pub struct FrameKeys {
    pub escape: bool,
    pub enter: bool,
    pub down: bool,
    pub up: bool,
}

/// The switcher's state.
pub struct Switcher {
    /// Every listed window.
    pub windows: Vec<WindowInfo>,
    /// The windows that the search keeps, in list order.
    pub filtered_windows: Vec<WindowInfo>,
    /// The search text.
    pub filter_text: String,
    /// Which fields the search looks at.
    pub filter_type: FilterType,
    /// The position of the selected entry in `filtered_windows`.
    pub selected_index: usize,
    /// Whether the switcher window is meant to be shown.
    pub visible: bool,
    /// Whether the shown window has been placed since it was last shown.
    pub positioned: bool,
    /// Whether the window had the focus at the last frame.
    pub was_focused: bool,
    /// Whether the window has had the focus since it was last focused again.
    pub ever_focused: bool,
    /// Whether the search box should take the keyboard focus.
    pub focus_search: bool,
    /// Whether the settings page is shown in place of the list.
    pub show_settings: bool,
}

/// The entry after `i` in a list of `n`, wrapping to the first.
pub open spec fn next_index(i: int, n: int) -> int {
    (i + 1) % n
}

/// The entry before `i` in a list of `n`, wrapping to the last.
pub open spec fn prev_index(i: int, n: int) -> int {
    if i == 0 {
        n - 1
    } else {
        i - 1
    }
}

/// Moving down and then up comes back to the same entry, and so does
/// moving up and then down.
pub proof fn lemma_up_undoes_down(i: int, n: int)
    requires
        0 <= i < n,
    ensures
        prev_index(next_index(i, n), n) == i,
        next_index(prev_index(i, n), n) == i,
        0 <= next_index(i, n) < n,
        0 <= prev_index(i, n) < n,
{
    if i + 1 < n {
        lemma_small_mod((i + 1) as nat, n as nat);
    } else {
        lemma_mod_self_0(n);
    }
    if i == 0 {
        lemma_mod_self_0(n);
    } else {
        lemma_small_mod(i as nat, n as nat);
    }
}

impl Switcher {
    /// The selection points into the filtered list, or is 0 when it is empty.
    pub open spec fn wf(&self) -> bool {
        if self.filtered_windows@.len() == 0 {
            self.selected_index == 0
        } else {
            self.selected_index < self.filtered_windows@.len()
        }
    }

    /// A new switcher: no windows, empty search, shown but not yet placed,
    /// search box to be focused.
    pub fn new(filter_type: FilterType) -> (s: Self)
        ensures
            s.windows@.len() == 0,
            s.filtered_windows@.len() == 0,
            s.filter_text@.len() == 0,
            s.filter_type == filter_type,
            s.selected_index == 0,
            s.visible,
            !s.positioned,
            !s.was_focused,
            !s.ever_focused,
            s.focus_search,
            !s.show_settings,
            s.wf(),
    {
        Switcher {
            windows: Vec::new(),
            filtered_windows: Vec::new(),
            filter_text: String::new(),
            filter_type,
            selected_index: 0,
            visible: true,
            positioned: false,
            was_focused: false,
            ever_focused: false,
            focus_search: true,
            show_settings: false,
        }
    }

    /// Searches the list again with the current text and filter; a
    /// selection past the end of the result goes back to the first entry.
    pub fn apply_filter(&mut self)
        ensures
            views_of(final(self).filtered_windows@) == filtered(
                views_of(old(self).windows@),
                old(self).filter_text@,
                old(self).filter_type,
            ),
            final(self).selected_index == (if old(self).selected_index
                >= final(self).filtered_windows@.len() {
                0
            } else {
                old(self).selected_index
            }),
            final(self).windows == old(self).windows,
            final(self).filter_text == old(self).filter_text,
            final(self).filter_type == old(self).filter_type,
            final(self).visible == old(self).visible,
            final(self).positioned == old(self).positioned,
            final(self).was_focused == old(self).was_focused,
            final(self).ever_focused == old(self).ever_focused,
            final(self).focus_search == old(self).focus_search,
            final(self).show_settings == old(self).show_settings,
            final(self).wf(),
    {
        let list = filter_windows(self.windows.as_slice(), self.filter_text.as_str(), self.filter_type);
        self.filtered_windows = list;
        if self.selected_index >= self.filtered_windows.len() {
            self.selected_index = 0;
        }
    }

    /// Replaces the window list and searches it again.
    pub fn set_windows(&mut self, list: Vec<WindowInfo>)
        ensures
            final(self).windows == list,
            views_of(final(self).filtered_windows@) == filtered(
                views_of(list@),
                old(self).filter_text@,
                old(self).filter_type,
            ),
            final(self).selected_index == (if old(self).selected_index
                >= final(self).filtered_windows@.len() {
                0
            } else {
                old(self).selected_index
            }),
            final(self).filter_text == old(self).filter_text,
            final(self).filter_type == old(self).filter_type,
            flags_unchanged(*old(self), *final(self)),
            final(self).wf(),
    {
        self.windows = list;
        self.apply_filter();
    }

    /// Switches the search to another filter; returns whether it changed,
    /// and searches again when it did.
    pub fn set_filter_type(&mut self, filter_type: FilterType) -> (changed: bool)
        ensures
            changed == (filter_type != old(self).filter_type),
            !changed ==> *final(self) == *old(self),
            changed ==> {
                &&& final(self).filter_type == filter_type
                &&& views_of(final(self).filtered_windows@) == filtered(
                    views_of(old(self).windows@),
                    old(self).filter_text@,
                    filter_type,
                )
                &&& final(self).selected_index == (if old(self).selected_index
                    >= final(self).filtered_windows@.len() {
                    0
                } else {
                    old(self).selected_index
                })
                &&& final(self).windows == old(self).windows
                &&& final(self).filter_text == old(self).filter_text
                &&& flags_unchanged(*old(self), *final(self))
                &&& final(self).wf()
            },
            old(self).wf() ==> final(self).wf(),
    {
        if filter_type == self.filter_type {
            return false;
        }
        self.filter_type = filter_type;
        self.apply_filter();
        true
    }

    /// Empties the search text, which shows every window again, and asks for
    /// the search box to take the focus.
    pub fn clear_filter(&mut self)
        ensures
            final(self).filter_text@.len() == 0,
            views_of(final(self).filtered_windows@) == views_of(old(self).windows@),
            final(self).selected_index == (if old(self).selected_index
                >= final(self).filtered_windows@.len() {
                0
            } else {
                old(self).selected_index
            }),
            final(self).windows == old(self).windows,
            final(self).filter_type == old(self).filter_type,
            final(self).focus_search,
            final(self).visible == old(self).visible,
            final(self).positioned == old(self).positioned,
            final(self).was_focused == old(self).was_focused,
            final(self).ever_focused == old(self).ever_focused,
            final(self).show_settings == old(self).show_settings,
            final(self).wf(),
    {
        self.filter_text = String::new();
        self.apply_filter();
        self.focus_search = true;
        proof {
            assert(self.filter_text@ =~= Seq::<char>::empty());
            lemma_empty_search_keeps_all(views_of(old(self).windows@), self.filter_type);
        }
    }

    /// Whether the search box should take the focus now; the request is
    /// used up.
    pub fn take_focus_request(&mut self) -> (r: bool)
        ensures
            r == old(self).focus_search,
            *final(self) == (Switcher { focus_search: false, ..*old(self) }),
    {
        let r = self.focus_search;
        self.focus_search = false;
        r
    }

    /// Shows the settings page in place of the list, or the list again.
    pub fn toggle_settings(&mut self)
        ensures
            *final(self) == (Switcher { show_settings: !old(self).show_settings, ..*old(self) }),
    {
        self.show_settings = !self.show_settings;
    }

    /// Selects the next entry, wrapping to the first; nothing changes when
    /// the filtered list is empty.
    pub fn move_down(&mut self)
        ensures
            *final(self) == moved_down(*old(self)),
            old(self).wf() ==> final(self).wf(),
    {
        let n = self.filtered_windows.len();
        if n > 0 {
            let r = self.selected_index % n;
            let next = if r + 1 == n { 0 } else { r + 1 };
            proof {
                lemma_add_mod_noop(self.selected_index as int, 1, n as int);
                if n > 1 {
                    lemma_small_mod(1, n as nat);
                } else {
                    assert(n == 1);
                    assert((self.selected_index + 1) % 1int == 0) by (nonlinear_arith);
                }
                lemma_small_mod(r as nat, n as nat);
                if r + 1 < n {
                    lemma_small_mod((r + 1) as nat, n as nat);
                } else {
                    lemma_mod_self_0(n as int);
                }
                if old(self).wf() {
                    lemma_up_undoes_down(self.selected_index as int, n as int);
                }
            }
            self.selected_index = next;
        }
    }

    /// Selects the entry before, wrapping to the last; nothing changes when
    /// the filtered list is empty.
    pub fn move_up(&mut self)
        ensures
            *final(self) == moved_up(*old(self)),
            old(self).wf() ==> final(self).wf(),
    {
        let n = self.filtered_windows.len();
        if n > 0 {
            proof {
                if old(self).wf() {
                    lemma_up_undoes_down(self.selected_index as int, n as int);
                }
            }
            self.selected_index = if self.selected_index == 0 { n - 1 } else { self.selected_index - 1 };
        }
    }

    /// Selects the entry at `index` of the filtered list, when there is one.
    pub fn select(&mut self, index: usize)
        ensures
            index < old(self).filtered_windows@.len() ==> *final(self) == (Switcher {
                selected_index: index,
                ..*old(self)
            }),
            index >= old(self).filtered_windows@.len() ==> *final(self) == *old(self),
            old(self).wf() ==> final(self).wf(),
    {
        if index < self.filtered_windows.len() {
            self.selected_index = index;
        }
    }

    /// The handle of the selected window, when the selection points at one.
    pub fn selected_hwnd(&self) -> (r: Option<isize>)
        ensures
            r == selected_handle(*self),
    {
        if self.selected_index < self.filtered_windows.len() {
            Some(self.filtered_windows[self.selected_index].hwnd)
        } else {
            None
        }
    }

    /// Marks the switcher hidden and unplaced.
    pub fn hide_window(&mut self)
        ensures
            *final(self) == hidden(*old(self)),
    {
        self.visible = false;
        self.positioned = false;
    }

    /// Asks for the search box to take the focus and starts watching the
    /// focus afresh, as after bringing the window to the front again.
    pub fn refocus(&mut self)
        ensures
            *final(self) == refocused(*old(self)),
    {
        self.focus_search = true;
        self.was_focused = false;
        self.ever_focused = false;
    }

    /// Shows the switcher: a shown one is focused again instead of being
    /// hidden and shown, a hidden one is shown and placed.
    pub fn show(&mut self) -> (cmd: WindowCommand)
        ensures
            *final(self) == shown(*old(self)),
            cmd == show_command(*old(self)),
    {
        if self.visible {
            self.refocus();
            WindowCommand::Refocus
        } else {
            self.visible = true;
            self.positioned = true;
            WindowCommand::Position
        }
    }

    /// What the switcher does on an event from another thread, given whether
    /// its window exists yet.
    pub fn on_app_event(&mut self, event: AppEvent, has_window: bool) -> (cmds: Vec<WindowCommand>)
        ensures
            match event {
                AppEvent::Exit => *final(self) == *old(self) && cmds@ == seq![WindowCommand::Exit],
                AppEvent::ToggleVisibility | AppEvent::ShowWindow => if has_window {
                    *final(self) == shown(*old(self)) && cmds@ == seq![show_command(*old(self))]
                } else {
                    *final(self) == *old(self) && cmds@.len() == 0
                },
                AppEvent::RefreshWindows(list) => {
                    &&& final(self).windows == list
                    &&& views_of(final(self).filtered_windows@) == filtered(
                        views_of(list@),
                        old(self).filter_text@,
                        old(self).filter_type,
                    )
                    &&& final(self).selected_index == (if old(self).selected_index
                        >= final(self).filtered_windows@.len() {
                        0
                    } else {
                        old(self).selected_index
                    })
                    &&& final(self).filter_text == old(self).filter_text
                    &&& final(self).filter_type == old(self).filter_type
                    &&& flags_unchanged(*old(self), *final(self))
                    &&& cmds@ == (if has_window {
                        seq![WindowCommand::Redraw]
                    } else {
                        Seq::<WindowCommand>::empty()
                    })
                },
            },
            old(self).wf() ==> final(self).wf(),
    {
        let mut cmds: Vec<WindowCommand> = Vec::new();
        match event {
            AppEvent::Exit => {
                cmds.push(WindowCommand::Exit);
            },
            AppEvent::ToggleVisibility | AppEvent::ShowWindow => {
                if has_window {
                    let cmd = self.show();
                    cmds.push(cmd);
                }
            },
            AppEvent::RefreshWindows(list) => {
                self.set_windows(list);
                if has_window {
                    cmds.push(WindowCommand::Redraw);
                }
            },
        }
        cmds
    }

    /// The switcher window lost the focus: with hiding on focus loss turned
    /// on, a shown switcher is hidden. Returns whether it was.
    pub fn on_focus_lost(&mut self, hide_on_focus_loss: bool) -> (hidden_now: bool)
        ensures
            hidden_now == (hide_on_focus_loss && old(self).visible),
            hidden_now ==> *final(self) == hidden(*old(self)),
            !hidden_now ==> *final(self) == *old(self),
    {
        if hide_on_focus_loss && self.visible {
            self.hide_window();
            true
        } else {
            false
        }
    }

    /// The start of a frame: a shown but unplaced switcher is placed; then,
    /// with hiding on focus loss turned on, the focus is tracked and a
    /// switcher that had the focus since it was shown is hidden as soon as
    /// it loses it.
    pub fn begin_frame(&mut self, focused: bool, hide_on_focus_loss: bool) -> (cmds: Vec<
        WindowCommand,
    >)
        ensures
            *final(self) == focus_step(placed(*old(self)).0, focused, hide_on_focus_loss).0,
            cmds@ == placed(*old(self)).1 + focus_step(
                placed(*old(self)).0,
                focused,
                hide_on_focus_loss,
            ).1,
            old(self).wf() ==> final(self).wf(),
            focus_consistent(*old(self)) ==> focus_consistent(*final(self)),
    {
        let mut cmds: Vec<WindowCommand> = Vec::new();
        if self.visible && !self.positioned {
            self.positioned = true;
            cmds.push(WindowCommand::Position);
        }
        let ghost mid = *self;
        let ghost first = cmds@;
        if hide_on_focus_loss {
            if focused && !self.was_focused {
                self.ever_focused = true;
            }
            if self.was_focused && !focused && self.ever_focused {
                self.hide_window();
                cmds.push(WindowCommand::Hide);
            }
            self.was_focused = focused;
        }
        proof {
            assert(cmds@ =~= first + focus_step(mid, focused, hide_on_focus_loss).1);
        }
        cmds
    }

    /// The keys of a frame: Escape hides; Enter with a non-empty search and
    /// a non-empty result activates the selected window (and hides the
    /// switcher when hiding on focus loss is on); Down and Up move the
    /// selection round the filtered list.
    pub fn handle_keys(&mut self, keys: FrameKeys, hide_on_focus_loss: bool) -> (cmds: Vec<
        WindowCommand,
    >)
        ensures
            *final(self) == keys_step(*old(self), keys, hide_on_focus_loss).0,
            cmds@ == keys_step(*old(self), keys, hide_on_focus_loss).1,
            keys.escape ==> !final(self).visible && cmds@.len() > 0 && cmds@[0]
                == WindowCommand::Hide,
            old(self).wf() ==> final(self).wf(),
            focus_consistent(*old(self)) ==> focus_consistent(*final(self)),
    {
        let mut cmds: Vec<WindowCommand> = Vec::new();
        let activate = !self.filter_text.as_str().is_empty() && keys.enter
            && self.filtered_windows.len() > 0;
        if keys.escape {
            self.hide_window();
            cmds.push(WindowCommand::Hide);
        }
        if activate {
            match self.selected_hwnd() {
                Some(hwnd) => cmds.push(WindowCommand::Activate(hwnd)),
                None => {},
            }
            if hide_on_focus_loss {
                self.hide_window();
                cmds.push(WindowCommand::Hide);
            }
        }
        if keys.down {
            self.move_down();
        }
        if keys.up {
            self.move_up();
        }
        proof {
            let s = keys_step(*old(self), keys, hide_on_focus_loss);
            assert(cmds@ =~= s.1);
        }
        cmds
    }

    /// Whether the frame is cleared transparent: until the switcher is placed,
    /// so that nothing is left drawn where the window first appears.
    pub fn uses_transparent_background(&self) -> (r: bool)
        ensures
            r == !self.positioned,
    {
        !self.positioned
    }
}

/// The flags of the switcher are the same in both states.
pub open spec fn flags_unchanged(a: Switcher, b: Switcher) -> bool {
    &&& a.visible == b.visible
    &&& a.positioned == b.positioned
    &&& a.was_focused == b.was_focused
    &&& a.ever_focused == b.ever_focused
    &&& a.focus_search == b.focus_search
    &&& a.show_settings == b.show_settings
}

/// The state with the selection moved down, if the filtered list has entries.
pub open spec fn moved_down(s: Switcher) -> Switcher {
    let n = s.filtered_windows@.len() as int;
    if n > 0 {
        Switcher { selected_index: next_index(s.selected_index as int, n) as usize, ..s }
    } else {
        s
    }
}

/// The state with the selection moved up, if the filtered list has entries.
pub open spec fn moved_up(s: Switcher) -> Switcher {
    let n = s.filtered_windows@.len() as int;
    if n > 0 {
        Switcher { selected_index: prev_index(s.selected_index as int, n) as usize, ..s }
    } else {
        s
    }
}

/// The handle of the selected window, if the selection points at one.
pub open spec fn selected_handle(s: Switcher) -> Option<isize> {
    if s.selected_index < s.filtered_windows@.len() {
        Some(s.filtered_windows@[s.selected_index as int].hwnd)
    } else {
        None
    }
}

/// The state after hiding.
pub open spec fn hidden(s: Switcher) -> Switcher {
    Switcher { visible: false, positioned: false, ..s }
}

/// The state after focusing the window again.
pub open spec fn refocused(s: Switcher) -> Switcher {
    Switcher { focus_search: true, was_focused: false, ever_focused: false, ..s }
}

/// The state after showing.
pub open spec fn shown(s: Switcher) -> Switcher {
    if s.visible {
        refocused(s)
    } else {
        Switcher { visible: true, positioned: true, ..s }
    }
}

/// The command that showing gives.
pub open spec fn show_command(s: Switcher) -> WindowCommand {
    if s.visible {
        WindowCommand::Refocus
    } else {
        WindowCommand::Position
    }
}

/// Placing a shown, unplaced switcher at the start of a frame.
pub open spec fn placed(s: Switcher) -> (Switcher, Seq<WindowCommand>) {
    if s.visible && !s.positioned {
        (Switcher { positioned: true, ..s }, seq![WindowCommand::Position])
    } else {
        (s, Seq::<WindowCommand>::empty())
    }
}

/// Tracking the focus in a frame: with hiding on focus loss turned on, a
/// switcher that had the focus at the last frame, and has had it since it
/// was focused again, is hidden when it no longer has it.
pub open spec fn focus_step(s: Switcher, focused: bool, hide_on_focus_loss: bool) -> (
    Switcher,
    Seq<WindowCommand>,
) {
    if !hide_on_focus_loss {
        (s, Seq::<WindowCommand>::empty())
    } else {
        let ever = s.ever_focused || (focused && !s.was_focused);
        let lose = s.was_focused && !focused && ever;
        let s1 = Switcher { ever_focused: ever, ..s };
        let s2 = if lose {
            hidden(s1)
        } else {
            s1
        };
        (
            Switcher { was_focused: focused, ..s2 },
            if lose {
                seq![WindowCommand::Hide]
            } else {
                Seq::<WindowCommand>::empty()
            },
        )
    }
}

/// The focus flags agree: a window that had the focus at the last frame has
/// had it since it was focused again.
pub open spec fn focus_consistent(s: Switcher) -> bool {
    s.was_focused ==> s.ever_focused
}

/// Acting on the keys of a frame.
pub open spec fn keys_step(s: Switcher, keys: FrameKeys, hide_on_focus_loss: bool) -> (
    Switcher,
    Seq<WindowCommand>,
) {
    let activate = s.filter_text@.len() > 0 && keys.enter && s.filtered_windows@.len() > 0;
    let s1 = if keys.escape {
        hidden(s)
    } else {
        s
    };
    let c1 = if keys.escape {
        seq![WindowCommand::Hide]
    } else {
        Seq::<WindowCommand>::empty()
    };
    let c2 = if activate && selected_handle(s) is Some {
        seq![WindowCommand::Activate(selected_handle(s)->0)]
    } else {
        Seq::<WindowCommand>::empty()
    };
    let s2 = if activate && hide_on_focus_loss {
        hidden(s1)
    } else {
        s1
    };
    let c3 = if activate && hide_on_focus_loss {
        seq![WindowCommand::Hide]
    } else {
        Seq::<WindowCommand>::empty()
    };
    let s3 = if keys.down {
        moved_down(s2)
    } else {
        s2
    };
    let s4 = if keys.up {
        moved_up(s3)
    } else {
        s3
    };
    (s4, c1 + c2 + c3)
}

/// Once the shown switcher has had the focus, losing it hides the
/// switcher at once (with hiding on focus loss turned on).
pub proof fn lemma_focus_loss_hides(s: Switcher)
    requires
        focus_consistent(s),
        s.was_focused,
    ensures
        !focus_step(s, false, true).0.visible,
        !focus_step(s, false, true).0.positioned,
        focus_step(s, false, true).1 == seq![WindowCommand::Hide],
{
}

/// A switcher that did not have the focus at the last frame is never hidden
/// by the focus tracking, and with hiding on focus loss turned off the focus
/// is not tracked at all.
pub proof fn lemma_no_hide_without_focus(s: Switcher, focused: bool, hide_on_focus_loss: bool)
    requires
        !s.was_focused || !hide_on_focus_loss,
    ensures
        focus_step(s, focused, hide_on_focus_loss).0.visible == s.visible,
        focus_step(s, focused, hide_on_focus_loss).1.len() == 0,
{
}

/// Showing always leaves the switcher shown; showing a hidden switcher
/// places it, and showing it again only brings it to the front again.
pub proof fn lemma_show(s: Switcher)
    ensures
        shown(s).visible,
        !s.visible ==> shown(s).positioned && show_command(s) == WindowCommand::Position,
        show_command(shown(s)) == WindowCommand::Refocus,
        shown(shown(s)) == refocused(shown(s)),
{
}

/// Hiding leaves the switcher hidden and unplaced, and showing it afterwards
/// places it again.
pub proof fn lemma_hide_then_show(s: Switcher)
    ensures
        !hidden(s).visible,
        !hidden(s).positioned,
        show_command(hidden(s)) == WindowCommand::Position,
        shown(hidden(s)).visible && shown(hidden(s)).positioned,
{
}

/// In a well-formed switcher, moving the selection up undoes moving it
/// down, and the other way round.
pub proof fn lemma_move_round_trip(s: Switcher)
    requires
        s.wf(),
    ensures
        moved_up(moved_down(s)) == s,
        moved_down(moved_up(s)) == s,
        moved_down(s).wf(),
        moved_up(s).wf(),
{
    let n = s.filtered_windows@.len() as int;
    if n > 0 {
        let i = s.selected_index as int;
        lemma_up_undoes_down(i, n);
        assert(s.filtered_windows.len() == n);
        let d = moved_down(s);
        assert(d.selected_index as int == next_index(i, n));
        assert(moved_up(d).selected_index as int == prev_index(next_index(i, n), n));
        assert(moved_up(d) == s);
        let u = moved_up(s);
        assert(u.selected_index as int == prev_index(i, n));
        assert(moved_down(u).selected_index as int == next_index(prev_index(i, n), n));
        assert(moved_down(u) == s);
    }
}

/// Escape always hides the switcher, whatever the hide-on-focus-loss
/// setting and whatever else was pressed: the switcher is left hidden and
/// unplaced, and the first command is to hide its window.
pub proof fn lemma_escape_hides(s: Switcher, keys: FrameKeys, hide_on_focus_loss: bool)
    requires
        keys.escape,
    ensures
        !keys_step(s, keys, hide_on_focus_loss).0.visible,
        !keys_step(s, keys, hide_on_focus_loss).0.positioned,
        keys_step(s, keys, hide_on_focus_loss).1.len() > 0,
        keys_step(s, keys, hide_on_focus_loss).1[0] == WindowCommand::Hide,
{
}

/// Without Escape or Enter the keys of a frame give no command and leave
/// the switcher shown or hidden as it was; only the selection moves.
pub proof fn lemma_arrows_only_move(s: Switcher, keys: FrameKeys, hide_on_focus_loss: bool)
    requires
        !keys.escape,
        !keys.enter,
    ensures
        keys_step(s, keys, hide_on_focus_loss).1.len() == 0,
        keys_step(s, keys, hide_on_focus_loss).0.visible == s.visible,
        keys_step(s, keys, hide_on_focus_loss).0.positioned == s.positioned,
        keys_step(s, keys, hide_on_focus_loss).0.filtered_windows == s.filtered_windows,
        keys_step(s, keys, hide_on_focus_loss).0.windows == s.windows,
        keys_step(s, keys, hide_on_focus_loss).0.filter_text == s.filter_text,
{
}

/// Enter on a non-empty search with a non-empty list (and no Escape)
/// brings the selected window to the front; with hiding on focus loss
/// turned on the switcher then hides itself, else it stays as it was.
pub proof fn lemma_enter_activates(s: Switcher, keys: FrameKeys, hide_on_focus_loss: bool)
    requires
        s.wf(),
        !keys.escape,
        keys.enter,
        s.filter_text@.len() > 0,
        s.filtered_windows@.len() > 0,
    ensures
        keys_step(s, keys, hide_on_focus_loss).1[0] == WindowCommand::Activate(
            s.filtered_windows@[s.selected_index as int].hwnd,
        ),
        hide_on_focus_loss ==> keys_step(s, keys, hide_on_focus_loss).1 == seq![
            WindowCommand::Activate(s.filtered_windows@[s.selected_index as int].hwnd),
            WindowCommand::Hide,
        ],
        hide_on_focus_loss ==> !keys_step(s, keys, hide_on_focus_loss).0.visible,
        !hide_on_focus_loss ==> keys_step(s, keys, hide_on_focus_loss).1 == seq![
            WindowCommand::Activate(s.filtered_windows@[s.selected_index as int].hwnd),
        ],
        !hide_on_focus_loss ==> keys_step(s, keys, hide_on_focus_loss).0.visible == s.visible,
{
    let h = s.filtered_windows@[s.selected_index as int].hwnd;
    let cmds = keys_step(s, keys, hide_on_focus_loss).1;
    if hide_on_focus_loss {
        assert(cmds =~= seq![WindowCommand::Activate(h), WindowCommand::Hide]);
    } else {
        assert(cmds =~= seq![WindowCommand::Activate(h)]);
    }
}

/// Enter does nothing while the search text is empty or nothing matches it.
pub proof fn lemma_enter_needs_search(s: Switcher, keys: FrameKeys, hide_on_focus_loss: bool)
    requires
        !keys.escape,
        s.filter_text@.len() == 0 || s.filtered_windows@.len() == 0,
    ensures
        keys_step(s, keys, hide_on_focus_loss).1.len() == 0,
        keys_step(s, keys, hide_on_focus_loss).0.visible == s.visible,
{
}

/// The arrow keys move the selection through the filtered list: Down to the
/// next entry, from the last back to the first; Up to the entry before,
/// from the first to the last; both together leave it where it was, and so
/// does neither. Escape and Enter do not move it.
pub proof fn lemma_arrows_move_selection(s: Switcher, keys: FrameKeys, hide_on_focus_loss: bool)
    requires
        s.wf(),
        s.filtered_windows@.len() > 0,
    ensures
        keys.down && !keys.up ==> keys_step(s, keys, hide_on_focus_loss).0.selected_index == (
        if s.selected_index + 1 == s.filtered_windows@.len() {
            0
        } else {
            s.selected_index + 1
        }),
        keys.up && !keys.down ==> keys_step(s, keys, hide_on_focus_loss).0.selected_index == (
        if s.selected_index == 0 {
            s.filtered_windows@.len() - 1
        } else {
            s.selected_index - 1
        }),
        keys.up == keys.down ==> keys_step(s, keys, hide_on_focus_loss).0.selected_index
            == s.selected_index,
        keys_step(s, keys, hide_on_focus_loss).0.wf(),
{
    let n = s.filtered_windows@.len() as int;
    let i = s.selected_index as int;
    lemma_up_undoes_down(i, n);
    if i + 1 < n {
        lemma_small_mod((i + 1) as nat, n as nat);
    } else {
        lemma_mod_self_0(n);
    }
    let activate = s.filter_text@.len() > 0 && keys.enter && n > 0;
    let s1 = if keys.escape { hidden(s) } else { s };
    let s2 = if activate && hide_on_focus_loss { hidden(s1) } else { s1 };
    assert(s2.filtered_windows == s.filtered_windows);
    assert(s2.selected_index == s.selected_index);
    assert(s2.wf());
    lemma_move_round_trip(s2);
    let d = moved_down(s2);
    let u = moved_up(s2);
    assert(0 <= next_index(i, n) < n);
    assert(s2.filtered_windows.len() == n);
    assert(d.selected_index as int == next_index(i, n));
    assert(u.selected_index as int == prev_index(i, n));
    assert(moved_up(s2).wf());
    assert(moved_down(s2).wf());
}

} // verus!
