//! The bookkeeping of the Win32 windows of the user interface: up to
//! [`MAX_WINDOWS`] windows, each named by a generational [`WindowHandle`].
//! Creating, showing and destroying the OS windows is left to the caller,
//! which passes the raw window handles in and out as integers.
use crate::handle::{generation_max, index_bits, index_max, pack, valid_min_count, Error, Handle32};
use vstd::prelude::*;
use vstd::std_specs::bits::{axiom_u32_leading_zeros, u32_leading_zeros};

verus! {

/// How many windows there can be.
pub const MAX_WINDOWS: usize = 16;

/// Names a window of a [`WindowControl`].
pub type WindowHandle = Handle32<16>;

/// An OS window: its raw handle (`0` for none) and whether the user asked
/// to close it.
#[derive(Clone, Copy, Debug, PartialEq, Eq, Structural)]
pub struct Window {
    hwnd: isize,
    pub user_requested_close: bool,
}

impl Window {
    pub closed spec fn spec_hwnd(self) -> isize {
        self.hwnd
    }

    pub closed spec fn spec_close_requested(self) -> bool {
        self.user_requested_close
    }

    /// An entry without an OS window or close request.
    pub closed spec fn empty() -> Window {
        Window { hwnd: 0, user_requested_close: false }
    }

    /// The entry with the close request recorded.
    pub closed spec fn with_close_requested(self) -> Window {
        Window { user_requested_close: true, ..self }
    }

    pub fn hwnd(&self) -> (r: isize)
        ensures
            r == self.spec_hwnd(),
    {
        self.hwnd
    }
}

impl Default for Window {
    /// No OS window, and no close request.
    fn default() -> (r: Self)
        ensures
            r == Window::empty(),
            r.spec_hwnd() == 0,
            !r.spec_close_requested(),
    {
        Window { hwnd: 0, user_requested_close: false }
    }
}

/// The index field of a [`WindowHandle`] is 5 bits wide.
proof fn lemma_index_field()
    ensures
        valid_min_count(16),
        index_bits(16) == 5,
        index_max(16) == 31,
{
    axiom_u32_leading_zeros(16);
    let x = u32_leading_zeros(16);
    assert(x < 32 && (16u32 >> ((31 - x) as u32)) & 1u32 != 0u32 ==> x == 27) by (bit_vector);
    assert(1u32 << 5u32 == 32u32) by (bit_vector);
}

/// The windows of the user interface and their handles.
pub struct WindowControl {
    handles: Vec<WindowHandle>,
    windows: Vec<Window>,
    num_windows: u32,
}

impl WindowControl {
    /// The handle kept for each entry.
    pub closed spec fn spec_handles(&self) -> Seq<WindowHandle> {
        self.handles@
    }

    /// The entries.
    pub closed spec fn spec_windows(&self) -> Seq<Window> {
        self.windows@
    }

    /// The number of windows counted as open.
    pub closed spec fn spec_num_windows(&self) -> u32 {
        self.num_windows
    }

    /// The invariant: one handle per entry, `MAX_WINDOWS` entries.
    pub open spec fn wf(&self) -> bool {
        &&& self.spec_handles().len() == MAX_WINDOWS
        &&& self.spec_windows().len() == MAX_WINDOWS
    }

    /// No windows: every entry empty, every handle raw 0.
    pub fn new() -> (r: Self)
        ensures
            r.wf(),
            r.spec_num_windows() == 0,
            forall|i: int|
                0 <= i < MAX_WINDOWS ==> (#[trigger] r.spec_handles()[i]).spec_value() == 0
                    && r.spec_windows()[i].spec_hwnd() == 0 && !r.spec_windows()[i].spec_close_requested(),
    {
        let mut handles: Vec<WindowHandle> = Vec::new();
        let mut windows: Vec<Window> = Vec::new();
        let mut i: usize = 0;
        while i < MAX_WINDOWS
            invariant
                0 <= i <= MAX_WINDOWS,
                handles@.len() == i,
                windows@.len() == i,
                forall|j: int|
                    0 <= j < i ==> (#[trigger] handles@[j]).spec_value() == 0 && windows@[j].hwnd == 0
                        && !windows@[j].user_requested_close,
            decreases MAX_WINDOWS - i,
        {
            handles.push(WindowHandle::null());
            windows.push(Window::default());
            i = i + 1;
        }
        WindowControl { handles, windows, num_windows: 0 }
    }

    /// The first entry without an OS window, if any.
    pub open spec fn first_free(&self) -> Option<int> {
        if exists|i: int| 0 <= i < MAX_WINDOWS && (#[trigger] self.spec_windows()[i]).spec_hwnd() == 0 {
            Some(
                choose|i: int|
                    0 <= i < MAX_WINDOWS && (#[trigger] self.spec_windows()[i]).spec_hwnd() == 0 && forall|j: int|
                        0 <= j < i ==> (#[trigger] self.spec_windows()[j]).spec_hwnd() != 0,
            )
        } else {
            None
        }
    }

    /// Picks the entry for a new window and returns its handle: the first
    /// entry without an OS window, whose kept handle is used, after being
    /// set to index `i` at generation 1 when [`Handle32::is_null`] holds of
    /// it; with no such entry, the null handle. The entry the handle's index
    /// names is emptied, and the window is counted.
    pub fn create_window(&mut self) -> (r: WindowHandle)
        requires
            old(self).wf(),
            old(self).spec_num_windows() < u32::MAX,
        ensures
            final(self).wf(),
            final(self).spec_num_windows() == old(self).spec_num_windows() + 1,
            match old(self).first_free() {
                Some(i) => {
                    let kept = old(self).spec_handles()[i];
                    &&& r == (if kept.spec_value() != 0 {
                        final(self).spec_handles()[i]
                    } else {
                        kept
                    })
                    &&& kept.spec_value() != 0 ==> final(self).spec_handles()[i].spec_index() == i
                        && final(self).spec_handles()[i].spec_generation() == 1
                    &&& kept.spec_value() == 0 ==> final(self).spec_handles() == old(self).spec_handles()
                    &&& forall|j: int| 0 <= j < MAX_WINDOWS && j != i ==> #[trigger] final(self).spec_handles()[j]
                        == old(self).spec_handles()[j]
                },
                None => r.spec_value() == 0 && final(self).spec_handles() == old(self).spec_handles(),
            },
            r.spec_index() < MAX_WINDOWS,
            final(self).spec_windows() == old(self).spec_windows().update(r.spec_index() as int, Window::empty()),
    {
        let mut index: Option<usize> = None;
        let mut i: usize = 0;
        while i < MAX_WINDOWS
            invariant_except_break
                0 <= i <= MAX_WINDOWS,
                index is None,
                forall|j: int| 0 <= j < i ==> (#[trigger] self.windows@[j]).hwnd != 0,
            invariant
                self.wf(),
                self.windows@ == old(self).windows@,
                self.handles@ == old(self).handles@,
            ensures
                match index {
                    Some(k) => k < MAX_WINDOWS && self.windows@[k as int].hwnd == 0 && forall|j: int|
                        0 <= j < k ==> (#[trigger] self.windows@[j]).hwnd != 0,
                    None => forall|j: int| 0 <= j < MAX_WINDOWS ==> (#[trigger] self.windows@[j]).hwnd != 0,
                },
            decreases MAX_WINDOWS - i,
        {
            if self.windows[i].hwnd == 0 {
                index = Some(i);
                break;
            }
            i = i + 1;
        }
        proof {
            lemma_index_field();
        }
        let handle = match index {
            Some(k) => {
                let kept = self.handles[k];
                if kept.is_null() {
                    match WindowHandle::new_index(k) {
                        Ok(h) => {
                            self.handles.set(k, h);
                        },
                        Err(_) => {},
                    }
                }
                let chosen = self.handles[k];
                proof {
                    let kk = k as u32;
                    assert(kk < 16 ==> (kk | (1u32 << 5u32)) & 31u32 == kk) by (bit_vector);
                    assert(kk < 16 ==> (kk | (1u32 << 5u32)) >> 5u32 == 1u32) by (bit_vector);
                    assert(0u32 & 31u32 == 0u32) by (bit_vector);
                    assert(chosen.spec_value() == 0 || chosen.spec_value() == (kk | (1u32 << 5u32)));
                    assert(chosen.spec_index() < MAX_WINDOWS);
                    let pred = |i: int|
                        0 <= i < MAX_WINDOWS && (#[trigger] old(self).spec_windows()[i]).spec_hwnd() == 0
                            && forall|j: int| 0 <= j < i ==> (#[trigger] old(self).spec_windows()[j]).spec_hwnd() != 0;
                    assert(pred(k as int));
                    let i = choose|i: int|
                        0 <= i < MAX_WINDOWS && (#[trigger] old(self).spec_windows()[i]).spec_hwnd() == 0 && forall|j: int|
                            0 <= j < i ==> (#[trigger] old(self).spec_windows()[j]).spec_hwnd() != 0;
                    assert(pred(i));
                    if i < k {
                        assert(old(self).spec_windows()[i].spec_hwnd() != 0);
                    }
                    if i > k {
                        assert(old(self).spec_windows()[k as int].spec_hwnd() != 0);
                    }
                    assert(old(self).first_free() == Some(k as int));
                }
                chosen
            },
            None => {
                assert(0u32 & 31u32 == 0u32) by (bit_vector);
                WindowHandle::null()
            },
        };
        assert(handle.spec_index() < MAX_WINDOWS);
        self.windows.set(handle.index(), Window::default());
        self.num_windows = self.num_windows + 1;
        handle
    }
    /// Destroys the window of `handle` if the handle kept for its entry has
    /// the same generation: the kept handle moves on a generation, the entry
    /// is emptied, and its OS window is returned for the caller to destroy.
    /// A stale handle changes nothing and gives `None`. When the kept handle
    /// has no generation left, nothing changes and the error is returned.
    pub fn destroy_window(&mut self, handle: WindowHandle) -> (r: Result<Option<isize>, Error>)
        requires
            old(self).wf(),
            handle.spec_index() < MAX_WINDOWS,
        ensures
            final(self).wf(),
            final(self).spec_num_windows() == old(self).spec_num_windows(),
            ({
                let i = handle.spec_index() as int;
                let kept = old(self).spec_handles()[i];
                if kept.spec_generation() != handle.spec_generation() {
                    r == Ok::<Option<isize>, Error>(None) && final(self).spec_handles() == old(self).spec_handles()
                        && final(self).spec_windows() == old(self).spec_windows()
                } else if kept.spec_generation() + 1 > generation_max(16) {
                    r == Err::<Option<isize>, Error>(Error::GenerationOutOfRange) && final(self).spec_handles()
                        == old(self).spec_handles() && final(self).spec_windows() == old(self).spec_windows()
                } else {
                    &&& r == Ok::<Option<isize>, Error>(Some(old(self).spec_windows()[i].spec_hwnd()))
                    &&& final(self).spec_handles()[i].spec_value() == pack(16, kept.spec_index(), (kept.spec_generation() + 1) as u32)
                    &&& final(self).spec_handles() == old(self).spec_handles().update(i, final(self).spec_handles()[i])
                    &&& final(self).spec_windows() == old(self).spec_windows().update(i, Window::empty())
                }
            }),
    {
        proof {
            lemma_index_field();
        }
        let i = handle.index();
        let mut kept = self.handles[i];
        if kept.generation() != handle.generation() {
            return Ok(None);
        }
        match kept.inc_generation() {
            Ok(()) => {},
            Err(e) => {
                return Err(e);
            },
        }
        self.handles.set(i, kept);
        let hwnd = self.windows[i].hwnd;
        self.windows.set(i, Window::default());
        Ok(Some(hwnd))
    }

    /// Records that the user asked to close the window of `handle`.
    pub fn close_requested(&mut self, handle: WindowHandle)
        requires
            old(self).wf(),
            handle.spec_index() < MAX_WINDOWS,
        ensures
            final(self).wf(),
            final(self).spec_num_windows() == old(self).spec_num_windows(),
            final(self).spec_handles() == old(self).spec_handles(),
            final(self).spec_windows() == old(self).spec_windows().update(
                handle.spec_index() as int,
                old(self).spec_windows()[handle.spec_index() as int].with_close_requested(),
            ),
    {
        proof {
            lemma_index_field();
        }
        let i = handle.index();
        let mut window = self.windows[i];
        window.user_requested_close = true;
        self.windows.set(i, window);
    }

    /// Counts a destroyed window out. Returns whether none is left, in which
    /// case the caller ends the message loop.
    pub fn window_destroyed(&mut self) -> (r: bool)
        requires
            old(self).wf(),
            old(self).spec_num_windows() > 0,
        ensures
            final(self).wf(),
            final(self).spec_num_windows() == old(self).spec_num_windows() - 1,
            final(self).spec_handles() == old(self).spec_handles(),
            final(self).spec_windows() == old(self).spec_windows(),
            r == (final(self).spec_num_windows() == 0),
    {
        self.num_windows = self.num_windows - 1;
        self.num_windows == 0
    }
}

} // verus!
