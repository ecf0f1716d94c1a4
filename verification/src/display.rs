use vstd::prelude::*;

verus! {

/// A video mode that a monitor offers: its size in pixels and its refresh rate.
#[derive(Clone, Copy, Debug, PartialEq, Eq, Structural)]
pub struct VideoMode {
    pub width: u32,
    pub height: u32,
    pub refresh_rate_millihertz: u32,
}

/// The smallest width a listed resolution may have.
pub const MIN_LISTED_WIDTH: u32 = 640;

/// The smallest height a listed resolution may have.
pub const MIN_LISTED_HEIGHT: u32 = 480;

/// The highest display mode: 0 is windowed, 1 borderless, 2 exclusive fullscreen.
pub const MAX_FULLSCREEN_MODE: u8 = 2;

/// Lexicographic order on resolutions: by width, then by height.
pub open spec fn res_lt(a: (u32, u32), b: (u32, u32)) -> bool {
    a.0 < b.0 || (a.0 == b.0 && a.1 < b.1)
}

/// Executable form of `res_lt`.
fn resolution_less(a: (u32, u32), b: (u32, u32)) -> (r: bool)
    ensures
        r == res_lt(a, b),
{
    a.0 < b.0 || (a.0 == b.0 && a.1 < b.1)
}

/// Every element is smaller than every later one (so no resolution repeats).
pub open spec fn strictly_sorted(s: Seq<(u32, u32)>) -> bool {
    forall|i: int, j: int| 0 <= i < j < s.len() ==> res_lt(s[i], s[j])
}

/// A resolution worth listing: at least 640 by 480.
pub open spec fn listable(r: (u32, u32)) -> bool {
    r.0 >= MIN_LISTED_WIDTH && r.1 >= MIN_LISTED_HEIGHT
}

/// Some mode among the first `n` has size `r`.
pub open spec fn offered_among(modes: Seq<VideoMode>, n: int, r: (u32, u32)) -> bool {
    exists|k: int| 0 <= k < n && modes[k].width == r.0 && modes[k].height == r.1
}

/// The resolutions to list for `modes`: exactly the listable sizes that some
/// mode has, each once, in increasing order.
pub open spec fn is_resolution_list(modes: Seq<VideoMode>, res: Seq<(u32, u32)>) -> bool {
    &&& strictly_sorted(res)
    &&& forall|r: (u32, u32)| res.contains(r) <==> (listable(r) && offered_among(modes, modes.len() as int, r))
}

/// Index of the first element of a strictly sorted sequence that is not below `r`.
fn insertion_point(v: &Vec<(u32, u32)>, r: (u32, u32)) -> (j: usize)
    requires
        strictly_sorted(v@),
    ensures
        j <= v.len(),
        forall|i: int| 0 <= i < j ==> res_lt(v@[i], r),
        forall|i: int| j <= i < v.len() ==> !res_lt(v@[i], r),
{
    let mut j: usize = 0;
    while j < v.len() && resolution_less(v[j], r)
        invariant
            j <= v.len(),
            strictly_sorted(v@),
            forall|i: int| 0 <= i < j ==> res_lt(v@[i], r),
        decreases v.len() - j,
    {
        j = j + 1;
    }
    proof {
        assert forall|i: int| j <= i < v.len() implies !res_lt(v@[i], r) by {
            if i > j && res_lt(v@[i], r) {
                assert(res_lt(v@[j as int], v@[i]));
            }
        }
    }
    j
}

/// The outside window's choice of mode after a display-mode request.
#[derive(Clone, Copy, Debug, PartialEq, Eq, Structural)]
pub enum DisplayAction {
    /// Leave fullscreen and ask for an inner size of `width` by `height`.
    Windowed { width: u32, height: u32 },
    /// Borderless fullscreen on the current monitor.
    Borderless,
    /// Exclusive fullscreen in the video mode at this index of the offered list.
    Exclusive { mode_index: usize },
}

/// A mode of exactly `width` by `height`.
pub open spec fn matches_size(m: VideoMode, width: u32, height: u32) -> bool {
    m.width == width && m.height == height
}

/// `i` is the index that taking the maximum by refresh rate over the modes of
/// the given size returns: a matching mode with the highest refresh rate, the
/// last one where several share it.
pub open spec fn is_preferred_mode(modes: Seq<VideoMode>, width: u32, height: u32, i: int) -> bool {
    &&& 0 <= i < modes.len()
    &&& matches_size(modes[i], width, height)
    &&& forall|k: int| 0 <= k < modes.len() && matches_size(modes[k], width, height)
        ==> modes[k].refresh_rate_millihertz <= modes[i].refresh_rate_millihertz
    &&& forall|k: int| i < k < modes.len() && matches_size(modes[k], width, height)
        ==> modes[k].refresh_rate_millihertz < modes[i].refresh_rate_millihertz
}

/// Some mode has the given size.
pub open spec fn size_offered(modes: Seq<VideoMode>, width: u32, height: u32) -> bool {
    exists|k: int| 0 <= k < modes.len() && matches_size(modes[k], width, height)
}

/// Picks, among the modes of size `width` by `height`, the one with the
/// highest refresh rate (the last such one on a tie); `None` when no mode has
/// that size.
pub fn preferred_video_mode(modes: &Vec<VideoMode>, width: u32, height: u32) -> (r: Option<usize>)
    ensures
        r.is_none() <==> !size_offered(modes@, width, height),
        r matches Some(i) ==> is_preferred_mode(modes@, width, height, i as int),
{
    let mut best: Option<usize> = None;
    let mut i: usize = 0;
    while i < modes.len()
        invariant
            i <= modes.len(),
            best.is_none() <==> !(exists|k: int| 0 <= k < i && matches_size(modes@[k], width, height)),
            best matches Some(b) ==> {
                &&& b < i
                &&& matches_size(modes@[b as int], width, height)
                &&& forall|k: int| 0 <= k < i && matches_size(modes@[k], width, height)
                    ==> modes@[k].refresh_rate_millihertz <= modes@[b as int].refresh_rate_millihertz
                &&& forall|k: int| b < k < i && matches_size(modes@[k], width, height)
                    ==> modes@[k].refresh_rate_millihertz < modes@[b as int].refresh_rate_millihertz
            },
        decreases modes.len() - i,
    {
        let m = modes[i];
        if m.width == width && m.height == height {
            match best {
                None => {
                    best = Some(i);
                },
                Some(b) => {
                    if modes[b].refresh_rate_millihertz <= m.refresh_rate_millihertz {
                        best = Some(i);
                    }
                },
            }
        }
        i = i + 1;
    }
    best
}

/// The display settings that the renderer keeps: vertical sync, the display
/// mode (0 windowed, 1 borderless, 2 exclusive) and the chosen resolution.
pub struct Renderer {
    vsync: bool,
    fullscreen_mode: u8,
    resolution_width: u32,
    resolution_height: u32,
}

impl Renderer {
    /// Whether vertical sync is on.
    pub closed spec fn vsync_on(&self) -> bool {
        self.vsync
    }

    /// The current display mode number.
    pub closed spec fn mode(&self) -> u8 {
        self.fullscreen_mode
    }

    /// The chosen resolution.
    pub closed spec fn res(&self) -> (u32, u32) {
        (self.resolution_width, self.resolution_height)
    }

    /// Settings as read from the configuration, stored unchanged.
    pub fn new(vsync: bool, fullscreen_mode: u8, resolution_width: u32, resolution_height: u32) -> (r: Self)
        ensures
            r.vsync_on() == vsync,
            r.mode() == fullscreen_mode,
            r.res() == (resolution_width, resolution_height),
    {
        Self { vsync, fullscreen_mode, resolution_width, resolution_height }
    }

    /// Flips vertical sync; the mode and resolution stay.
    pub fn toggle_vsync(&mut self)
        ensures
            final(self).vsync_on() == !old(self).vsync_on(),
            final(self).mode() == old(self).mode(),
            final(self).res() == old(self).res(),
    {
        self.vsync = !self.vsync;
    }

    /// Whether vertical sync is on.
    pub fn vsync(&self) -> (b: bool)
        ensures
            b == self.vsync_on(),
    {
        self.vsync
    }

    /// The resolutions worth offering among the monitor's video modes: those of
    /// at least 640 by 480, each once, in increasing order.
    pub fn supported_resolutions(&self, video_modes: &Vec<VideoMode>) -> (res: Vec<(u32, u32)>)
        ensures
            is_resolution_list(video_modes@, res@),
    {
        let mut result: Vec<(u32, u32)> = Vec::new();
        let mut i: usize = 0;
        while i < video_modes.len()
            invariant
                i <= video_modes.len(),
                strictly_sorted(result@),
                forall|r: (u32, u32)|
                    #![trigger result@.contains(r)]
                    #![trigger offered_among(video_modes@, i as int, r)]
                    result@.contains(r) <==> (listable(r) && offered_among(video_modes@, i as int, r)),
            decreases video_modes.len() - i,
        {
            let m = video_modes[i];
            let resolution = (m.width, m.height);
            let ghost old_result = result@;
            if m.width >= MIN_LISTED_WIDTH && m.height >= MIN_LISTED_HEIGHT {
                let j = insertion_point(&result, resolution);
                if j < result.len() && result[j].0 == resolution.0 && result[j].1 == resolution.1 {
                    assert(result@[j as int] == resolution);
                    assert(result@.contains(resolution));
                } else {
                    result.insert(j, resolution);
                    proof {
                        assert forall|a: int, b: int| 0 <= a < b < result@.len() implies res_lt(result@[a], result@[b]) by {
                            if j < old_result.len() {
                                assert(res_lt(resolution, old_result[j as int]));
                            }
                            if a < j && b > j {
                                assert(res_lt(old_result[a], resolution));
                            }
                        }
                        assert(result@[j as int] == resolution);
                        assert forall|r: (u32, u32)| old_result.contains(r) implies result@.contains(r) by {
                            let k = choose|k: int| 0 <= k < old_result.len() && old_result[k] == r;
                            if k < j {
                                assert(result@[k] == r);
                            } else {
                                assert(result@[k + 1] == r);
                            }
                        }
                        assert forall|r: (u32, u32)| result@.contains(r) implies (old_result.contains(r) || r == resolution) by {
                            let k = choose|k: int| 0 <= k < result@.len() && result@[k] == r;
                            if k < j {
                                assert(old_result[k] == r);
                            } else if k > j {
                                assert(old_result[k - 1] == r);
                            }
                        }
                    }
                }
            }
            assert(forall|r: (u32, u32)| result@.contains(r)
                <==> (old_result.contains(r) || (listable(resolution) && r == resolution)));
            proof {
                assert forall|r: (u32, u32)| offered_among(video_modes@, i + 1, r)
                    <==> (offered_among(video_modes@, i as int, r) || r == resolution) by {
                    if r == resolution {
                        assert(video_modes@[i as int].width == r.0 && video_modes@[i as int].height == r.1);
                    }
                    if offered_among(video_modes@, i + 1, r) && r != resolution {
                        let k = choose|k: int| 0 <= k < i + 1 && video_modes@[k].width == r.0 && video_modes@[k].height == r.1;
                        assert(k < i);
                    }
                }
                assert forall|r: (u32, u32)| result@.contains(r) <==> (listable(r) && offered_among(video_modes@, i + 1, r)) by {
                    assert(old_result.contains(r) <==> (listable(r) && offered_among(video_modes@, i as int, r)));
                    assert(offered_among(video_modes@, i + 1, r) <==> (offered_among(video_modes@, i as int, r) || r == resolution));
                }
            }
            let ghost next: int = i + 1;
            assert(forall|r: (u32, u32)| result@.contains(r) <==> (listable(r) && offered_among(video_modes@, next, r)));
            i = i + 1;
            assert forall|r: (u32, u32)| result@.contains(r) <==> (listable(r) && offered_among(video_modes@, i as int, r)) by {
                assert(result@.contains(r) <==> (listable(r) && offered_among(video_modes@, next, r)));
                assert(offered_among(video_modes@, next, r) == offered_among(video_modes@, i as int, r));
            }
        }
        result
    }

    /// Applies display mode `mode` (capped at 2) with the given resolution and
    /// tells the window what to do. Windowed and borderless take the resolution;
    /// exclusive takes it only where some offered mode has that size, the one
    /// with the highest refresh rate, and otherwise falls back to borderless and
    /// keeps the previous resolution. The mode number is stored either way.
    pub fn set_display_mode(&mut self, mode: u8, width: u32, height: u32, video_modes: &Vec<VideoMode>) -> (action: DisplayAction)
        ensures
            final(self).vsync_on() == old(self).vsync_on(),
            final(self).mode() == (if mode > MAX_FULLSCREEN_MODE { MAX_FULLSCREEN_MODE } else { mode }),
            final(self).mode() == 0 ==> action == (DisplayAction::Windowed { width, height }) && final(self).res() == (width, height),
            final(self).mode() == 1 ==> action == DisplayAction::Borderless && final(self).res() == (width, height),
            final(self).mode() == 2 ==> match action {
                DisplayAction::Exclusive { mode_index } => is_preferred_mode(video_modes@, width, height, mode_index as int)
                    && final(self).res() == (width, height),
                DisplayAction::Borderless => !size_offered(video_modes@, width, height) && final(self).res() == old(self).res(),
                _ => false,
            },
    {
        let mode = if mode > MAX_FULLSCREEN_MODE { MAX_FULLSCREEN_MODE } else { mode };
        let action = if mode == 0 {
            self.resolution_width = width;
            self.resolution_height = height;
            DisplayAction::Windowed { width, height }
        } else if mode == 1 {
            self.resolution_width = width;
            self.resolution_height = height;
            DisplayAction::Borderless
        } else {
            match preferred_video_mode(video_modes, width, height) {
                Some(mode_index) => {
                    self.resolution_width = width;
                    self.resolution_height = height;
                    DisplayAction::Exclusive { mode_index }
                },
                None => DisplayAction::Borderless,
            }
        };
        self.fullscreen_mode = mode;
        action
    }

    /// Changes the display mode and keeps the current resolution.
    pub fn set_fullscreen_mode(&mut self, mode: u8, video_modes: &Vec<VideoMode>) -> (action: DisplayAction)
        ensures
            final(self).vsync_on() == old(self).vsync_on(),
            final(self).mode() == (if mode > MAX_FULLSCREEN_MODE { MAX_FULLSCREEN_MODE } else { mode }),
            final(self).res() == old(self).res(),
            final(self).mode() == 0 ==> action == (DisplayAction::Windowed { width: old(self).res().0, height: old(self).res().1 }),
            final(self).mode() == 1 ==> action == DisplayAction::Borderless,
            final(self).mode() == 2 ==> match action {
                DisplayAction::Exclusive { mode_index } => is_preferred_mode(video_modes@, old(self).res().0, old(self).res().1, mode_index as int),
                DisplayAction::Borderless => !size_offered(video_modes@, old(self).res().0, old(self).res().1),
                _ => false,
            },
    {
        let w = self.resolution_width;
        let h = self.resolution_height;
        self.set_display_mode(mode, w, h, video_modes)
    }

    /// The current display mode number.
    pub fn fullscreen_mode(&self) -> (m: u8)
        ensures
            m == self.mode(),
    {
        self.fullscreen_mode
    }

    /// The chosen resolution.
    pub fn resolution(&self) -> (r: (u32, u32))
        ensures
            r == self.res(),
    {
        (self.resolution_width, self.resolution_height)
    }

    /// Leaves fullscreen when the window is fullscreen; otherwise enters the
    /// stored fullscreen mode, or borderless when the stored mode is windowed.
    pub fn toggle_fullscreen(&mut self, is_fullscreen: bool, video_modes: &Vec<VideoMode>) -> (action: DisplayAction)
        ensures
            final(self).vsync_on() == old(self).vsync_on(),
            final(self).res() == old(self).res(),
            is_fullscreen ==> final(self).mode() == 0
                && action == (DisplayAction::Windowed { width: old(self).res().0, height: old(self).res().1 }),
            !is_fullscreen ==> final(self).mode() == (if old(self).mode() == 0 { 1 } else if old(self).mode() > MAX_FULLSCREEN_MODE { MAX_FULLSCREEN_MODE } else { old(self).mode() }),
            !is_fullscreen && final(self).mode() == 1 ==> action == DisplayAction::Borderless,
            !is_fullscreen && final(self).mode() == 2 ==> match action {
                DisplayAction::Exclusive { mode_index } => is_preferred_mode(video_modes@, old(self).res().0, old(self).res().1, mode_index as int),
                DisplayAction::Borderless => !size_offered(video_modes@, old(self).res().0, old(self).res().1),
                _ => false,
            },
    {
        if is_fullscreen {
            self.set_fullscreen_mode(0, video_modes)
        } else {
            let m = if self.fullscreen_mode == 0 { 1 } else { self.fullscreen_mode };
            self.set_fullscreen_mode(m, video_modes)
        }
    }
}

/// Toggling vertical sync twice restores every display setting.
pub proof fn lemma_toggle_vsync_twice(a: Renderer, b: Renderer, c: Renderer)
    requires
        b.vsync_on() == !a.vsync_on(),
        b.mode() == a.mode(),
        b.res() == a.res(),
        c.vsync_on() == !b.vsync_on(),
        c.mode() == b.mode(),
        c.res() == b.res(),
    ensures
        c == a,
{
}

/// The resolution list holds every offered size of at least 640 by 480,
/// however large, holds nothing smaller and nothing that no mode offers, and
/// runs in increasing width, then increasing height, with no size twice.
pub proof fn lemma_resolution_list_contents(modes: Seq<VideoMode>, res: Seq<(u32, u32)>)
    requires
        is_resolution_list(modes, res),
    ensures
        forall|k: int| 0 <= k < modes.len() && modes[k].width >= 640 && modes[k].height >= 480
            ==> #[trigger] res.contains((modes[k].width, modes[k].height)),
        forall|i: int| 0 <= i < res.len() ==> #[trigger] res[i].0 >= 640 && res[i].1 >= 480,
        forall|i: int| 0 <= i < res.len() ==> #[trigger] offered_by(modes, res[i]),
        forall|i: int, j: int| #![trigger res[i], res[j]] 0 <= i < j < res.len() ==>
            res[i].0 < res[j].0 || (res[i].0 == res[j].0 && res[i].1 < res[j].1),
{
    assert forall|k: int| 0 <= k < modes.len() && modes[k].width >= 640 && modes[k].height >= 480
        implies #[trigger] res.contains((modes[k].width, modes[k].height)) by {
        let r = (modes[k].width, modes[k].height);
        assert(offered_among(modes, modes.len() as int, r));
        assert(listable(r));
        lemma_list_member(modes, res, r);
    }
    assert forall|i: int| 0 <= i < res.len() implies #[trigger] res[i].0 >= 640 && res[i].1 >= 480 by {
        assert(res.contains(res[i]));
        lemma_list_member(modes, res, res[i]);
    }
    assert forall|i: int| 0 <= i < res.len() implies #[trigger] offered_by(modes, res[i]) by {
        assert(res.contains(res[i]));
        lemma_list_member(modes, res, res[i]);
        let k = choose|k: int| 0 <= k < modes.len() && modes[k].width == res[i].0 && modes[k].height == res[i].1;
        assert(modes[k].width == res[i].0 && modes[k].height == res[i].1);
    }
    assert forall|i: int, j: int| #![trigger res[i], res[j]] 0 <= i < j < res.len() implies
        res[i].0 < res[j].0 || (res[i].0 == res[j].0 && res[i].1 < res[j].1) by {
        assert(res_lt(res[i], res[j]));
    }
}

/// Some mode has exactly size `r`.
pub open spec fn offered_by(modes: Seq<VideoMode>, r: (u32, u32)) -> bool {
    exists|k: int| 0 <= k < modes.len() && modes[k].width == r.0 && modes[k].height == r.1
}

proof fn lemma_list_member(modes: Seq<VideoMode>, res: Seq<(u32, u32)>, r: (u32, u32))
    requires
        is_resolution_list(modes, res),
    ensures
        res.contains(r) <==> (listable(r) && offered_among(modes, modes.len() as int, r)),
{
}

/// The mode picked for exclusive fullscreen has exactly the requested width
/// and height, the highest refresh rate among the modes of that size, and no
/// later mode of that size shares that rate; and some mode of that size exists
/// exactly when one is picked.
pub proof fn lemma_preferred_mode_matches_request(modes: Seq<VideoMode>, width: u32, height: u32, i: int)
    ensures
        is_preferred_mode(modes, width, height, i) ==> {
            &&& 0 <= i < modes.len()
            &&& modes[i].width == width
            &&& modes[i].height == height
            &&& forall|k: int| 0 <= k < modes.len() && modes[k].width == width && modes[k].height == height
                ==> #[trigger] modes[k].refresh_rate_millihertz <= modes[i].refresh_rate_millihertz
            &&& forall|k: int| i < k < modes.len() && modes[k].width == width && modes[k].height == height
                ==> #[trigger] modes[k].refresh_rate_millihertz < modes[i].refresh_rate_millihertz
        },
        size_offered(modes, width, height) <==> exists|k: int| 0 <= k < modes.len()
            && #[trigger] modes[k].width == width && modes[k].height == height,
{
}

} // verus!
