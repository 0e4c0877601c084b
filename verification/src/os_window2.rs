//! The table of OS windows: up to [`MAX_WINDOWS`] windows, each addressed by
//! a generational [`WindowHandle`]. Free entries form a list threaded
//! through their handles; destroying a window bumps its entry's generation,
//! so that old handles stop resolving, and puts the entry back at the head of
//! the list.
use vstd::prelude::*;

verus! {

/// How many windows the table holds.
pub const MAX_WINDOWS: usize = 32;

/// The longest window title, in UTF-16 code units with the terminator.
pub const MAX_TITLE_LENGTH: usize = 256;

/// The end of the free list.
pub const NO_WINDOW: u32 = 4294967295;

/// Names a window of a [`WindowManager`]: an entry's index and the
/// generation the entry had when the window was created. `(0, 0)` is the
/// null handle.
#[derive(Debug, Clone, Copy, PartialEq, Eq, Structural)]
pub struct WindowHandle {
    index: u32,
    generation: u32,
}

impl WindowHandle {
    pub closed spec fn spec_index(self) -> u32 {
        self.index
    }

    pub closed spec fn spec_generation(self) -> u32 {
        self.generation
    }

    /// Whether this is the null handle.
    pub open spec fn spec_is_null(&self) -> bool {
        self.spec_index() == 0 && self.spec_generation() == 0
    }

    #[verifier::when_used_as_spec(spec_is_null)]
    pub fn is_null(&self) -> (r: bool)
        ensures
            r == self.spec_is_null(),
    {
        self.index == 0 && self.generation == 0
    }
}

impl Default for WindowHandle {
    /// The null handle.
    fn default() -> (r: Self)
        ensures
            r.spec_index() == 0 && r.spec_generation() == 0,
    {
        WindowHandle { index: 0, generation: 0 }
    }
}

/// An entry of the table: the OS window (`0` for none), the entry's handle,
/// and whether the user asked to close the window.
#[derive(Debug, Clone, Copy, PartialEq, Eq, Structural)]
pub struct WindowProperties {
    hwnd: isize,
    handle: WindowHandle,
    pub was_close_requested: bool,
}

impl WindowProperties {
    /// The raw OS window handle, `0` for none.
    pub closed spec fn spec_hwnd(self) -> isize {
        self.hwnd
    }

    /// The entry's handle: its generation, and in a free entry the index of
    /// the next free entry, in a used one its own index.
    pub closed spec fn spec_handle(self) -> WindowHandle {
        self.handle
    }

    /// Whether the user asked to close the window.
    pub closed spec fn spec_close_requested(self) -> bool {
        self.was_close_requested
    }

    /// The entry with `hwnd` as its OS window.
    pub closed spec fn with_hwnd(self, hwnd: isize) -> Self {
        WindowProperties { hwnd, ..self }
    }

    /// The entry with the close request recorded.
    pub closed spec fn with_close_requested(self) -> Self {
        WindowProperties { was_close_requested: true, ..self }
    }

    pub fn hwnd(&self) -> (r: isize)
        ensures
            r == self.spec_hwnd(),
    {
        self.hwnd
    }
}

impl Default for WindowProperties {
    fn default() -> (r: Self)
        ensures
            r.spec_hwnd() == 0,
            r.spec_handle().spec_index() == 0 && r.spec_handle().spec_generation() == 0,
            !r.spec_close_requested(),
    {
        WindowProperties { hwnd: 0, handle: WindowHandle::default(), was_close_requested: false }
    }
}

/// What the window procedure was told about a window.
#[derive(Debug, Clone, Copy, PartialEq, Eq)]
pub enum Message {
    /// The OS window `hwnd` was created.
    Create { hwnd: isize },
    /// The user asked to close the window.
    Close,
    /// The OS window was destroyed.
    Destroy,
    /// Any other message.
    Other,
}

/// How the window procedure answers a message.
#[derive(Debug, Clone, Copy, PartialEq, Eq)]
pub enum Reply {
    /// The message was handled: answer `0`.
    Handled,
    /// Leave the message to the default window procedure.
    Default,
}

/// The link after position `k` of the free list `fl`.
spec fn next_of(fl: Seq<int>, k: int) -> u32 {
    if k + 1 < fl.len() {
        fl[k + 1] as u32
    } else {
        NO_WINDOW
    }
}

/// The head of the free list `fl`.
spec fn head_of(fl: Seq<int>) -> u32 {
    if fl.len() > 0 {
        fl[0] as u32
    } else {
        NO_WINDOW
    }
}

/// The table of OS windows.
pub struct WindowManager {
    windows: Vec<WindowProperties>,
    freelist_head: u32,
    num_windows: u32,
    /// The free entries, in list order from the head.
    free: Ghost<Seq<int>>,
}

impl WindowManager {
    /// The entries of the table.
    pub closed spec fn spec_windows(&self) -> Seq<WindowProperties> {
        self.windows@
    }

    /// The first free entry, or [`NO_WINDOW`].
    pub closed spec fn spec_freelist_head(&self) -> u32 {
        self.freelist_head
    }

    /// The free entries, in the order they will be handed out.
    pub closed spec fn spec_free(&self) -> Seq<int> {
        self.free@
    }

    /// The number of windows counted as open.
    pub closed spec fn spec_num_windows(&self) -> u32 {
        self.num_windows
    }

    /// Whether `handle` names the entry it points at, at the entry's
    /// current generation.
    pub open spec fn spec_is_valid(&self, handle: WindowHandle) -> bool {
        &&& !(handle.spec_index() == 0 && handle.spec_generation() == 0)
        &&& handle.spec_index() < MAX_WINDOWS
        &&& self.spec_windows()[handle.spec_index() as int].spec_handle().spec_generation()
            == handle.spec_generation()
    }

    /// The invariant: `MAX_WINDOWS` entries; the free list is the chain of
    /// free entries from the head, without repeats; a used entry's handle
    /// points at itself.
    pub closed spec fn wf(&self) -> bool {
        let w = self.windows@;
        let fl = self.free@;
        &&& w.len() == MAX_WINDOWS
        &&& fl.no_duplicates()
        &&& forall|k: int| 0 <= k < fl.len() ==> 0 <= #[trigger] fl[k] < MAX_WINDOWS
        &&& forall|k: int|
            0 <= k < fl.len() ==> (#[trigger] w[fl[k]]).handle.index == next_of(fl, k)
        &&& forall|i: int| 0 <= i < MAX_WINDOWS && !fl.contains(i) ==> (#[trigger] w[i]).handle.index == i
        &&& self.freelist_head == head_of(fl)
        &&& w[0].handle.generation > 0
    }

    /// An empty table whose free list hands out the entries from the last
    /// to the first. The first entry starts at generation 1, so that no
    /// handle it gives out is null.
    pub fn new() -> (r: Self)
        ensures
            r.wf(),
            r.spec_free() == Seq::new(MAX_WINDOWS as nat, |k: int| MAX_WINDOWS - 1 - k),
            r.spec_num_windows() == 0,
            forall|i: int|
                0 <= i < MAX_WINDOWS ==> (#[trigger] r.spec_windows()[i]).spec_handle().spec_generation()
                    == if i == 0 {
                    1u32
                } else {
                    0u32
                } && r.spec_windows()[i].spec_hwnd() == 0 && !r.spec_windows()[i].spec_close_requested(),
    {
        let mut windows: Vec<WindowProperties> = Vec::new();
        let mut freelist_head: u32 = NO_WINDOW;
        let mut i: usize = 0;
        while i < MAX_WINDOWS
            invariant
                0 <= i <= MAX_WINDOWS,
                windows@.len() == i,
                freelist_head == if i == 0 {
                    NO_WINDOW
                } else {
                    (i - 1) as u32
                },
                forall|j: int|
                    0 <= j < i ==> (#[trigger] windows@[j]) == (WindowProperties {
                        hwnd: 0,
                        handle: WindowHandle {
                            index: if j == 0 {
                                NO_WINDOW
                            } else {
                                (j - 1) as u32
                            },
                            generation: 0,
                        },
                        was_close_requested: false,
                    }),
            decreases MAX_WINDOWS - i,
        {
            windows.push(
                WindowProperties {
                    hwnd: 0,
                    handle: WindowHandle { index: freelist_head, generation: 0 },
                    was_close_requested: false,
                },
            );
            freelist_head = i as u32;
            i = i + 1;
        }
        let first = WindowProperties {
            hwnd: 0,
            handle: WindowHandle { index: NO_WINDOW, generation: 1 },
            was_close_requested: false,
        };
        windows.set(0, first);
        let ghost fl = Seq::new(MAX_WINDOWS as nat, |k: int| MAX_WINDOWS - 1 - k);
        let r = WindowManager { windows, freelist_head, num_windows: 0, free: Ghost(fl) };
        proof {
            assert forall|a: int, b: int| 0 <= a < fl.len() && 0 <= b < fl.len() && a != b implies fl[a] != fl[b] by {}
            assert forall|k: int| 0 <= k < fl.len() implies (#[trigger] r.windows@[fl[k]]).handle.index == next_of(fl, k) by {
                if k + 1 < fl.len() {
                    assert(fl[k] != 0);
                }
            }
            assert forall|i: int| 0 <= i < MAX_WINDOWS implies fl.contains(i) by {
                assert(fl[MAX_WINDOWS - 1 - i] == i);
            }
        }
        r
    }

    /// Returns `true` if `handle` is not null and names its entry at the
    /// entry's current generation.
    pub fn is_valid(&self, window: WindowHandle) -> (r: bool)
        requires
            self.wf(),
            window.is_null() || window.spec_index() < MAX_WINDOWS,
        ensures
            r == self.spec_is_valid(window),
    {
        !window.is_null() && self.windows[window.index as usize].handle.generation == window.generation
    }

    /// Whether any window is counted as open.
    pub fn has_windows(&self) -> (r: bool)
        ensures
            r == (self.spec_num_windows() > 0),
    {
        self.num_windows > 0
    }

    /// Takes the entry at the head of the free list for a new window and
    /// returns its handle, or `None` when every entry is taken.
    pub fn allocate_handle(&mut self) -> (r: Option<WindowHandle>)
        requires
            old(self).wf(),
        ensures
            final(self).wf(),
            final(self).spec_num_windows() == old(self).spec_num_windows(),
            old(self).spec_free().len() == 0 ==> r is None && final(self).spec_windows() == old(self).spec_windows()
                && final(self).spec_free() == old(self).spec_free(),
            old(self).spec_free().len() > 0 ==> {
                let i = old(self).spec_free()[0];
                let w = old(self).spec_windows()[i];
                &&& r matches Some(h) && h.spec_index() == i && h.spec_generation() == w.spec_handle().spec_generation()
                    && !h.spec_is_null() && final(self).spec_is_valid(h)
                &&& final(self).spec_free() == old(self).spec_free().drop_first()
                &&& final(self).spec_windows()[i].spec_handle().spec_index() == i
                &&& final(self).spec_windows()[i].spec_handle().spec_generation() == w.spec_handle().spec_generation()
                &&& final(self).spec_windows()[i].spec_hwnd() == w.spec_hwnd()
                &&& final(self).spec_windows()[i].spec_close_requested() == w.spec_close_requested()
                &&& forall|j: int| 0 <= j < MAX_WINDOWS && j != i ==> #[trigger] final(self).spec_windows()[j]
                    == old(self).spec_windows()[j]
            },
    {
        if self.freelist_head < NO_WINDOW {
            let index = self.freelist_head;
            let ghost fl = self.free@;
            proof {
                if fl.len() == 0 {
                    assert(false);
                }
            }
            let mut entry = self.windows[index as usize];
            self.freelist_head = entry.handle.index;
            entry.handle.index = index;
            self.windows.set(index as usize, entry);
            proof {
                let nfl = fl.drop_first();
                assert forall|k: int| 0 <= k < nfl.len() implies (#[trigger] self.windows@[nfl[k]]).handle.index == next_of(nfl, k) by {
                    assert(nfl[k] == fl[k + 1]);
                    assert(fl[k + 1] != fl[0]);
                }
                assert forall|i: int| 0 <= i < MAX_WINDOWS && !nfl.contains(i) implies (#[trigger] self.windows@[i]).handle.index == i by {
                    if i != fl[0] {
                        if fl.contains(i) {
                            let k = choose|k: int| 0 <= k < fl.len() && fl[k] == i;
                            assert(nfl[k - 1] == i);
                        }
                    }
                }
                self.free = Ghost(nfl);
            }
            Some(WindowHandle { index, generation: entry.handle.generation })
        } else {
            proof {
                let fl = self.free@;
                if fl.len() > 0 {
                    assert(fl[0] < MAX_WINDOWS);
                }
            }
            None
        }
    }

    /// The OS window to destroy for `window`: its entry's window, if the
    /// handle is valid.
    pub fn destroy_window(&self, window: WindowHandle) -> (r: Option<isize>)
        requires
            self.wf(),
            window.is_null() || window.spec_index() < MAX_WINDOWS,
        ensures
            r == if self.spec_is_valid(window) {
                Some(self.spec_windows()[window.spec_index() as int].spec_hwnd())
            } else {
                None::<isize>
            },
    {
        if self.is_valid(window) {
            Some(self.windows[window.index as usize].hwnd)
        } else {
            None
        }
    }

    /// The entry that `window` names, if its index is in the table and its
    /// generation is the entry's.
    pub fn get(&self, window: WindowHandle) -> (r: Option<&WindowProperties>)
        requires
            self.wf(),
        ensures
            r == if window.spec_index() < MAX_WINDOWS && self.spec_windows()[window.spec_index() as int].spec_handle().spec_generation()
                == window.spec_generation() {
                Some(&self.spec_windows()[window.spec_index() as int])
            } else {
                None::<&WindowProperties>
            },
    {
        let index = window.index as usize;
        if index < self.windows.len() && self.windows[index].handle.generation == window.generation {
            Some(&self.windows[index])
        } else {
            None
        }
    }

    /// Handles what the window procedure was told about the window of
    /// `handle`, which must be in the table unless it is null. A null
    /// handle leaves the message to the default procedure. On creation the
    /// entry records the OS window; on a close request it records the
    /// request; on destruction the entry's generation is bumped, it forgets
    /// its OS window and goes to the head of the free list. The OS destroys
    /// a window once, while its handle is valid: a destroyed handle must be
    /// valid, its entry must not be free already (pushing it again would put
    /// it on the free list twice), and its generation must be below
    /// `u32::MAX`, as bumping it would overflow.
    pub fn handle_message(&mut self, handle: WindowHandle, message: Message) -> (r: Reply)
        requires
            old(self).wf(),
            handle.is_null() || handle.spec_index() < MAX_WINDOWS,
            message is Destroy && !handle.is_null() ==> {
                &&& old(self).spec_is_valid(handle)
                &&& !old(self).spec_free().contains(handle.spec_index() as int)
                &&& handle.spec_generation() < u32::MAX
            },
        ensures
            final(self).wf(),
            final(self).spec_num_windows() == old(self).spec_num_windows(),
            ({
                let i = handle.spec_index() as int;
                let w = old(self).spec_windows()[i];
                if handle.spec_index() == 0 && handle.spec_generation() == 0 {
                    r == Reply::Default && final(self).spec_windows() == old(self).spec_windows()
                        && final(self).spec_free() == old(self).spec_free()
                } else {
                    match message {
                        Message::Create { hwnd } => {
                            &&& r == Reply::Handled
                            &&& final(self).spec_free() == old(self).spec_free()
                            &&& final(self).spec_windows() == old(self).spec_windows().update(i, w.with_hwnd(hwnd))
                        },
                        Message::Close => {
                            &&& r == Reply::Handled
                            &&& final(self).spec_free() == old(self).spec_free()
                            &&& final(self).spec_windows() == old(self).spec_windows().update(i, w.with_close_requested())
                        },
                        Message::Destroy => {
                            &&& r == Reply::Handled
                            &&& !final(self).spec_is_valid(handle)
                            &&& final(self).spec_free() == seq![i] + old(self).spec_free()
                            &&& final(self).spec_windows()[i].spec_hwnd() == 0
                            &&& final(self).spec_windows()[i].spec_handle().spec_generation()
                                == w.spec_handle().spec_generation() + 1
                            &&& final(self).spec_windows()[i].spec_close_requested() == w.spec_close_requested()
                            &&& forall|j: int| 0 <= j < MAX_WINDOWS && j != i ==> #[trigger] final(self).spec_windows()[j]
                                == old(self).spec_windows()[j]
                        },
                        Message::Other => r == Reply::Default && final(self).spec_windows() == old(self).spec_windows()
                            && final(self).spec_free() == old(self).spec_free(),
                    }
                }
            }),
    {
        if handle.is_null() {
            return Reply::Default;
        }
        let index = handle.index as usize;
        let mut entry = self.windows[index];
        match message {
            Message::Create { hwnd } => {
                entry.hwnd = hwnd;
                self.windows.set(index, entry);
                proof {
                    assert forall|k: int| 0 <= k < self.free@.len() implies (#[trigger] self.windows@[self.free@[k]]).handle.index
                        == next_of(self.free@, k) by {
                        assert(old(self).windows@[self.free@[k]].handle.index == next_of(self.free@, k));
                    }
                }
                Reply::Handled
            },
            Message::Close => {
                entry.was_close_requested = true;
                self.windows.set(index, entry);
                proof {
                    assert forall|k: int| 0 <= k < self.free@.len() implies (#[trigger] self.windows@[self.free@[k]]).handle.index
                        == next_of(self.free@, k) by {
                        assert(old(self).windows@[self.free@[k]].handle.index == next_of(self.free@, k));
                    }
                }
                Reply::Handled
            },
            Message::Destroy => {
                let ghost fl = self.free@;
                proof {
                    assert(self.windows@[index as int].handle.index == index);
                }
                entry.handle.generation = entry.handle.generation + 1;
                entry.handle.index = self.freelist_head;
                entry.hwnd = 0;
                self.windows.set(index, entry);
                self.freelist_head = handle.index;
                proof {
                    let nfl = seq![index as int] + fl;
                    assert forall|a: int, b: int| 0 <= a < nfl.len() && 0 <= b < nfl.len() && a != b implies nfl[a] != nfl[b] by {
                        if a > 0 {
                            assert(nfl[a] == fl[a - 1]);
                        }
                        if b > 0 {
                            assert(nfl[b] == fl[b - 1]);
                        }
                    }
                    assert forall|k: int| 0 <= k < nfl.len() implies 0 <= #[trigger] nfl[k] < MAX_WINDOWS by {
                        if k > 0 {
                            assert(nfl[k] == fl[k - 1]);
                        }
                    }
                    assert forall|k: int| 0 <= k < nfl.len() implies (#[trigger] self.windows@[nfl[k]]).handle.index == next_of(nfl, k) by {
                        if k > 0 {
                            assert(nfl[k] == fl[k - 1]);
                            assert(fl[k - 1] != index as int);
                            assert(old(self).windows@[fl[k - 1]].handle.index == next_of(fl, k - 1));
                        }
                    }
                    assert forall|i: int| 0 <= i < MAX_WINDOWS && !nfl.contains(i) implies (#[trigger] self.windows@[i]).handle.index == i by {
                        assert(nfl[0] == index as int);
                        if fl.contains(i) {
                            let k = choose|k: int| 0 <= k < fl.len() && fl[k] == i;
                            assert(nfl[k + 1] == i);
                        }
                    }
                    self.free = Ghost(nfl);
                }
                Reply::Handled
            },
            Message::Other => Reply::Default,
        }
    }
}

} // verus!
