//! The windows that the switcher lists: what is kept of each, how it is
//! shown, which top-level windows are listed at all, and how the list is
//! told apart from another.

use vstd::prelude::*;

use crate::text::{chars_of, string_of};

verus! {

/// A top-level window as the switcher lists it.
#[derive(Debug, PartialEq, Eq)]
pub struct WindowInfo {
    /// The window handle, kept as an integer so that it can cross threads.
    pub hwnd: isize,
    /// The id of the process that owns the window.
    pub process_id: u32,
    /// The owning process's executable name, without directory or extension.
    pub process_name: String,
    /// The window's title.
    pub window_title: String,
    /// The window's class name.
    pub class_name: String,
    /// Whether the process could not be queried (it runs elevated).
    pub is_elevated: bool,
}

/// What a `WindowInfo` holds, as plain values.
pub struct WindowInfoView {
    pub hwnd: isize,
    pub process_id: u32,
    pub process_name: Seq<char>,
    pub window_title: Seq<char>,
    pub class_name: Seq<char>,
    pub is_elevated: bool,
}

impl View for WindowInfo {
    type V = WindowInfoView;

    open spec fn view(&self) -> WindowInfoView {
        WindowInfoView {
            hwnd: self.hwnd,
            process_id: self.process_id,
            process_name: self.process_name@,
            window_title: self.window_title@,
            class_name: self.class_name@,
            is_elevated: self.is_elevated,
        }
    }
}

impl Clone for WindowInfo {
    fn clone(&self) -> (r: Self)
        ensures
            r@ == self@,
    {
        WindowInfo {
            hwnd: self.hwnd,
            process_id: self.process_id,
            process_name: self.process_name.clone(),
            window_title: self.window_title.clone(),
            class_name: self.class_name.clone(),
            is_elevated: self.is_elevated,
        }
    }
}

/// The views of a list of windows.
pub open spec fn views_of(ws: Seq<WindowInfo>) -> Seq<WindowInfoView> {
    ws.map_values(|w: WindowInfo| w@)
}

/// The title shown for a window: its own, or a placeholder when it has none.
pub open spec fn shown_title(w: WindowInfoView) -> Seq<char> {
    if w.window_title.len() == 0 {
        "无标题窗口"@
    } else {
        w.window_title
    }
}

/// The process shown for a window: its name, or when it is unknown a note
/// that says whether administrator rights are needed to read it.
pub open spec fn shown_process(w: WindowInfoView) -> Seq<char> {
    if w.process_name.len() == 0 {
        if w.is_elevated {
            "[需要管理员权限]"@
        } else {
            "[未知进程]"@
        }
    } else {
        w.process_name
    }
}

/// The character of a hexadecimal digit, lowercase.
pub open spec fn hex_digit_char(d: nat) -> char {
    if d == 0 { '0' }
    else if d == 1 { '1' }
    else if d == 2 { '2' }
    else if d == 3 { '3' }
    else if d == 4 { '4' }
    else if d == 5 { '5' }
    else if d == 6 { '6' }
    else if d == 7 { '7' }
    else if d == 8 { '8' }
    else if d == 9 { '9' }
    else if d == 10 { 'a' }
    else if d == 11 { 'b' }
    else if d == 12 { 'c' }
    else if d == 13 { 'd' }
    else if d == 14 { 'e' }
    else { 'f' }
}

/// The digits of `n` in base `base` (2 to 16), most significant first, with
/// no leading zero; zero is the single digit `0`.
pub open spec fn digits_of(n: nat, base: nat) -> Seq<char>
    decreases n,
{
    if base < 2 || n < base {
        seq![hex_digit_char(n)]
    } else {
        proof {
            assert(n / base < n) by (nonlinear_arith)
                requires
                    base >= 2,
                    n >= base,
            ;
        }
        digits_of(n / base, base).push(hex_digit_char(n % base))
    }
}

/// `digits` with zeros put in front until it has at least `width` characters.
pub open spec fn zero_padded(digits: Seq<char>, width: nat) -> Seq<char> {
    if digits.len() >= width {
        digits
    } else {
        Seq::new((width - digits.len()) as nat, |i: int| '0') + digits
    }
}

/// The identifier of a window: its process id in decimal, an underscore,
/// and its handle, read as an unsigned machine word, in lowercase
/// hexadecimal padded with zeros to 16 digits (`"{}_{:016x}"`).
pub open spec fn window_id(process_id: u32, hwnd: isize) -> Seq<char> {
    digits_of(process_id as nat, 10) + seq!['_'] + zero_padded(digits_of((hwnd as usize) as nat, 16), 16)
}

/// The digit character for `d`.
fn digit_char(d: usize) -> (c: char)
    requires
        d < 16,
    ensures
        c == hex_digit_char(d as nat),
{
    if d == 0 { '0' }
    else if d == 1 { '1' }
    else if d == 2 { '2' }
    else if d == 3 { '3' }
    else if d == 4 { '4' }
    else if d == 5 { '5' }
    else if d == 6 { '6' }
    else if d == 7 { '7' }
    else if d == 8 { '8' }
    else if d == 9 { '9' }
    else if d == 10 { 'a' }
    else if d == 11 { 'b' }
    else if d == 12 { 'c' }
    else if d == 13 { 'd' }
    else if d == 14 { 'e' }
    else { 'f' }
}

/// The digits of `n` in base `base`, most significant first.
fn digits(n: usize, base: usize) -> (v: Vec<char>)
    requires
        2 <= base <= 16,
    ensures
        v@ == digits_of(n as nat, base as nat),
        v@.len() >= 1,
{
    let mut rest = n;
    let mut acc: Vec<char> = Vec::new();
    while rest >= base
        invariant
            2 <= base <= 16,
            digits_of(n as nat, base as nat) == digits_of(rest as nat, base as nat) + acc@,
        decreases rest,
    {
        let ghost before = acc@;
        let d = digit_char(rest % base);
        acc.insert(0, d);
        proof {
            let r = rest as nat;
            let b = base as nat;
            assert(digits_of(r, b) == digits_of(r / b, b).push(hex_digit_char(r % b)));
            assert(digits_of(r / b, b).push(hex_digit_char(r % b)) + before =~= digits_of(r / b, b)
                + acc@);
        }
        rest = rest / base;
    }
    let ghost before = acc@;
    let first = digit_char(rest);
    acc.insert(0, first);
    proof {
        assert(digits_of(rest as nat, base as nat) == seq![hex_digit_char(rest as nat)]);
        assert(seq![hex_digit_char(rest as nat)] + before =~= acc@);
    }
    acc
}

/// `digits` with zeros put in front until it has at least `width` characters.
fn pad_with_zeros(digits: Vec<char>, width: usize) -> (v: Vec<char>)
    ensures
        v@ == zero_padded(digits@, width as nat),
{
    let mut v = digits;
    let ghost orig = v@;
    while v.len() < width
        invariant
            orig.len() <= v@.len() <= width || (orig.len() >= width && v@ == orig),
            v@ == Seq::new((v@.len() - orig.len()) as nat, |i: int| '0') + orig,
        decreases width - v@.len(),
    {
        let ghost before = v@;
        v.insert(0, '0');
        assert(v@ =~= Seq::new((v@.len() - orig.len()) as nat, |i: int| '0') + orig);
    }
    proof {
        if orig.len() >= width {
            assert(v@ =~= orig);
        } else {
            assert(v@.len() == width);
        }
    }
    v
}

impl WindowInfo {
    /// The window's identifier: the process id in decimal, `_`, and the
    /// handle as an unsigned word in lowercase hexadecimal, 16 digits at least.
    pub fn id(&self) -> (r: String)
        ensures
            r@ == window_id(self.process_id, self.hwnd),
    {
        let mut v = digits(self.process_id as usize, 10);
        v.push('_');
        let hex = pad_with_zeros(digits(#[verifier::truncate] (self.hwnd as usize), 16), 16);
        let ghost left = v@;
        let mut i: usize = 0;
        while i < hex.len()
            invariant
                i <= hex@.len(),
                v@ == left + hex@.take(i as int),
            decreases hex@.len() - i,
        {
            v.push(hex[i]);
            assert(hex@.take(i + 1) =~= hex@.take(i as int).push(hex@[i as int]));
            i = i + 1;
        }
        assert(hex@.take(hex@.len() as int) =~= hex@);
        assert(v@ =~= window_id(self.process_id, self.hwnd));
        string_of(v.as_slice())
    }

    /// The title to show: the window's own, or a placeholder when it is empty.
    pub fn display_title(&self) -> (r: &str)
        ensures
            r@ == shown_title(self@),
    {
        if self.window_title.as_str().is_empty() {
            "无标题窗口"
        } else {
            self.window_title.as_str()
        }
    }

    /// The process to show: its name, or a note when the name is unknown.
    pub fn display_process(&self) -> (r: &str)
        ensures
            r@ == shown_process(self@),
    {
        if self.process_name.as_str().is_empty() {
            if self.is_elevated {
                "[需要管理员权限]"
            } else {
                "[未知进程]"
            }
        } else {
            self.process_name.as_str()
        }
    }

    /// Whether this window holds the same values as `other`.
    pub fn same_as(&self, other: &WindowInfo) -> (r: bool)
        ensures
            r == (self@ == other@),
    {
        self.hwnd == other.hwnd && self.process_id == other.process_id
            && self.process_name == other.process_name && self.window_title == other.window_title
            && self.class_name == other.class_name && self.is_elevated == other.is_elevated
    }
}

/// Whether two window lists differ: in length, or in what some position
/// holds.
pub fn windows_changed(old_list: &[WindowInfo], new_list: &[WindowInfo]) -> (r: bool)
    ensures
        r == (views_of(old_list@) != views_of(new_list@)),
{
    if old_list.len() != new_list.len() {
        assert(views_of(old_list@).len() != views_of(new_list@).len());
        return true;
    }
    let mut i: usize = 0;
    while i < old_list.len()
        invariant
            old_list@.len() == new_list@.len(),
            i <= old_list@.len(),
            forall|j: int| 0 <= j < i ==> old_list@[j]@ == new_list@[j]@,
        decreases old_list@.len() - i,
    {
        if !old_list[i].same_as(&new_list[i]) {
            assert(views_of(old_list@)[i as int] != views_of(new_list@)[i as int]);
            return true;
        }
        i = i + 1;
    }
    assert(views_of(old_list@) =~= views_of(new_list@));
    false
}

/// The ASCII-lowercase code of a character: `A` to `Z` become `a` to `z`,
/// every other character keeps its code.
pub open spec fn ascii_lower_code(c: char) -> u32 {
    if 'A' <= c && c <= 'Z' {
        (c as u32 + 32) as u32
    } else {
        c as u32
    }
}

/// Whether two strings are equal when ASCII letters are compared without
/// regard to case (`str::eq_ignore_ascii_case`).
pub open spec fn equal_ignoring_ascii_case(a: Seq<char>, b: Seq<char>) -> bool {
    a.len() == b.len() && forall|i: int|
        0 <= i < a.len() ==> #[trigger] ascii_lower_code(a[i]) == ascii_lower_code(b[i])
}

fn ascii_lower_code_exec(c: char) -> (r: u32)
    ensures
        r == ascii_lower_code(c),
{
    if 'A' <= c && c <= 'Z' {
        c as u32 + 32
    } else {
        c as u32
    }
}

/// Whether `a` and `b` are equal when ASCII letters are compared without
/// regard to case.
pub fn eq_ignore_ascii_case(a: &[char], b: &str) -> (r: bool)
    ensures
        r == equal_ignoring_ascii_case(a@, b@),
{
    let bv = chars_of(b);
    if a.len() != bv.len() {
        return false;
    }
    let mut i: usize = 0;
    while i < a.len()
        invariant
            a@.len() == bv@.len(),
            bv@ == b@,
            i <= a@.len(),
            forall|j: int| 0 <= j < i ==> ascii_lower_code(a@[j]) == ascii_lower_code(bv@[j]),
        decreases a@.len() - i,
    {
        if ascii_lower_code_exec(a[i]) != ascii_lower_code_exec(bv[i]) {
            return false;
        }
        i = i + 1;
    }
    true
}

/// Window classes of the shell and of system surfaces that are never listed.
pub open spec fn excluded_class_names() -> Seq<Seq<char>> {
    seq![
        "Windows.UI.Core.CoreWindow"@,
        "ApplicationFrameWindow"@,
        "Shell_TrayWnd"@,
        "Shell_SecondaryTrayWnd"@,
        "Progman"@,
        "WorkerW"@,
        "Windows.UI.Composition.DesktopWindowContentBridge"@,
    ]
}

/// Whether a class name is one of the excluded classes, ASCII case ignored.
pub open spec fn is_excluded_class(class_name: Seq<char>) -> bool {
    exists|i: int|
        0 <= i < excluded_class_names().len() && equal_ignoring_ascii_case(
            #[trigger] excluded_class_names()[i],
            class_name,
        )
}

/// Whether a window class is excluded from the list, ASCII case ignored.
pub fn is_excluded_class_name(class_name: &str) -> (r: bool)
    ensures
        r == is_excluded_class(class_name@),
{
    let c = chars_of(class_name);
    let names = [
        "Windows.UI.Core.CoreWindow",
        "ApplicationFrameWindow",
        "Shell_TrayWnd",
        "Shell_SecondaryTrayWnd",
        "Progman",
        "WorkerW",
        "Windows.UI.Composition.DesktopWindowContentBridge",
    ];
    let mut i: usize = 0;
    while i < 7
        invariant
            i <= 7,
            c@ == class_name@,
            forall|j: int| 0 <= j < 7 ==> (#[trigger] names@[j])@ == excluded_class_names()[j],
            forall|j: int|
                0 <= j < i ==> !equal_ignoring_ascii_case(
                    #[trigger] excluded_class_names()[j],
                    class_name@,
                ),
        decreases 7 - i,
    {
        if eq_ignore_ascii_case(c.as_slice(), names[i]) {
            proof {
                lemma_equal_ignoring_case_symmetric(class_name@, excluded_class_names()[i as int]);
            }
            return true;
        }
        proof {
            lemma_equal_ignoring_case_symmetric(class_name@, excluded_class_names()[i as int]);
        }
        i = i + 1;
    }
    false
}

/// Comparing without regard to ASCII case is symmetric.
pub proof fn lemma_equal_ignoring_case_symmetric(a: Seq<char>, b: Seq<char>)
    ensures
        equal_ignoring_ascii_case(a, b) == equal_ignoring_ascii_case(b, a),
{
}

/// Whether a top-level window belongs in the switcher's list: it is visible,
/// not a tool window, has no owner and no parent, its class is not excluded,
/// its title is not empty, and it does not belong to the switcher itself.
pub open spec fn listed_window(
    visible: bool,
    tool_window: bool,
    has_owner: bool,
    has_parent: bool,
    class_name: Seq<char>,
    title: Seq<char>,
    process_id: u32,
    own_process_id: u32,
) -> bool {
    &&& visible
    &&& !tool_window
    &&& !has_owner
    &&& !has_parent
    &&& !is_excluded_class(class_name)
    &&& title.len() > 0
    &&& process_id != own_process_id
}

/// Whether a top-level window with these properties belongs in the list.
pub fn is_listed_window(
    visible: bool,
    tool_window: bool,
    has_owner: bool,
    has_parent: bool,
    class_name: &str,
    title: &str,
    process_id: u32,
    own_process_id: u32,
) -> (r: bool)
    ensures
        r == listed_window(
            visible,
            tool_window,
            has_owner,
            has_parent,
            class_name@,
            title@,
            process_id,
            own_process_id,
        ),
{
    if !visible || tool_window || has_owner || has_parent {
        return false;
    }
    if is_excluded_class_name(class_name) {
        return false;
    }
    if title.is_empty() {
        return false;
    }
    process_id != own_process_id
}

/// A window that passes every other test is listed exactly when it belongs
/// to another process than the switcher's own: the switcher's own windows
/// are never listed, and every other process's windows are listed alike.
pub proof fn lemma_listed_window_process(
    class_name: Seq<char>,
    title: Seq<char>,
    process_id: u32,
    other_process_id: u32,
    own_process_id: u32,
)
    requires
        !is_excluded_class(class_name),
        title.len() > 0,
    ensures
        listed_window(true, false, false, false, class_name, title, process_id, own_process_id)
            == (process_id != own_process_id),
        !listed_window(true, false, false, false, class_name, title, own_process_id, own_process_id),
        process_id != own_process_id && other_process_id != own_process_id ==> listed_window(
            true,
            false,
            false,
            false,
            class_name,
            title,
            process_id,
            own_process_id,
        ) == listed_window(
            true,
            false,
            false,
            false,
            class_name,
            title,
            other_process_id,
            own_process_id,
        ),
{
}

/// Each test on its own leaves a window out: a hidden window, a tool
/// window, an owned window, a child window, a window of an excluded class,
/// a window without a title and a window of the switcher's own process are
/// never listed.
pub proof fn lemma_listed_window_tests(
    visible: bool,
    tool_window: bool,
    has_owner: bool,
    has_parent: bool,
    class_name: Seq<char>,
    title: Seq<char>,
    process_id: u32,
    own_process_id: u32,
)
    ensures
        listed_window(
            visible,
            tool_window,
            has_owner,
            has_parent,
            class_name,
            title,
            process_id,
            own_process_id,
        ) ==> {
            &&& visible
            &&& !tool_window
            &&& !has_owner
            &&& !has_parent
            &&& !is_excluded_class(class_name)
            &&& title.len() > 0
            &&& process_id != own_process_id
        },
{
}

} // verus!
