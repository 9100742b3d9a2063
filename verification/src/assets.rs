//! Plain-data catalog of the assets the game logic reads: texture sizes and
//! animated-sprite frame tables. Loading the files behind this data is a
//! collaborator's job; the logic only ever consumes the values held here.

use vstd::prelude::*;

use crate::geom::{rect_bounded, vec_bounded, Rect, Vec2i, RECT_LIMIT};
use crate::ustr::{ustr, Ustr, USTR_CAP};

verus! {

/// Index of an animated sprite in the catalog.
#[derive(Clone, Copy, PartialEq, Eq, Structural, Debug)]
pub struct AnimatedSpriteId(pub usize);

impl Default for AnimatedSpriteId {
    /// The first animated sprite in the catalog.
    fn default() -> (r: Self)
        ensures
            r == AnimatedSpriteId(0usize),
    {
        AnimatedSpriteId(0)
    }
}

/// Reference to a texture: either a named texture or the sheet image of an
/// animated sprite.
#[derive(Debug)]
pub enum TextureId {
    TextureId(Ustr),
    AnimatedSpriteId(AnimatedSpriteId),
}

/// Mathematical shape of a `TextureId`.
pub enum TextureIdView {
    Name(Seq<char>),
    Sprite(AnimatedSpriteId),
}

impl View for TextureId {
    type V = TextureIdView;

    open spec fn view(&self) -> TextureIdView {
        match self {
            TextureId::TextureId(name) => TextureIdView::Name(name@),
            TextureId::AnimatedSpriteId(id) => TextureIdView::Sprite(*id),
        }
    }
}

impl Clone for TextureId {
    fn clone(&self) -> (r: Self)
        ensures
            r@ == self@,
    {
        match self {
            TextureId::TextureId(name) => TextureId::TextureId(name.clone()),
            TextureId::AnimatedSpriteId(id) => TextureId::AnimatedSpriteId(*id),
        }
    }
}

impl Default for TextureId {
    /// The placeholder texture shown for unset references.
    fn default() -> (r: Self)
        ensures
            r@ == TextureIdView::Name("missing"@),
    {
        proof {
            reveal_strlit("missing");
        }
        TextureId::TextureId(ustr("missing"))
    }
}

impl TextureId {
    pub fn from_name(name: &str) -> (r: Self)
        requires
            name@.len() <= USTR_CAP,
        ensures
            r@ == TextureIdView::Name(name@),
    {
        TextureId::TextureId(ustr(name))
    }

    pub fn from_sprite(id: AnimatedSpriteId) -> (r: Self)
        ensures
            r@ == TextureIdView::Sprite(id),
    {
        TextureId::AnimatedSpriteId(id)
    }
}

/// Metadata of one source frame of a sprite sheet: the sub-rectangle of the
/// sheet image, the frame's drawing offset, and the logical cell size.
#[derive(Clone, Copy, PartialEq, Eq, Structural, Debug)]
pub struct Frame {
    pub src: Rect,
    pub offset: Vec2i,
    pub source_size: Vec2i,
}

/// One named animation: the pre-expanded list of source-frame indices, one
/// entry per tick.
#[derive(Debug)]
pub struct AnimationTrack {
    pub name: String,
    pub frame_ids: Vec<usize>,
}

/// Mathematical shape of an `AnimationTrack`.
pub struct AnimationTrackView {
    pub name: Seq<char>,
    pub frame_ids: Seq<usize>,
}

impl View for AnimationTrack {
    type V = AnimationTrackView;

    open spec fn view(&self) -> AnimationTrackView {
        AnimationTrackView { name: self.name@, frame_ids: self.frame_ids@ }
    }
}

/// An animated sprite: a sheet image plus per-animation frame tables.
#[derive(Debug)]
pub struct AnimatedSprite {
    image: String,
    image_size: Vec2i,
    frames: Vec<Frame>,
    animations: Vec<AnimationTrack>,
}

/// Mathematical shape of an `AnimatedSprite`.
#[verifier::ext_equal]
pub struct AnimatedSpriteView {
    pub image: Seq<char>,
    pub image_size: Vec2i,
    pub frames: Seq<Frame>,
    pub animations: Seq<AnimationTrackView>,
}

impl View for AnimatedSprite {
    type V = AnimatedSpriteView;

    closed spec fn view(&self) -> AnimatedSpriteView {
        AnimatedSpriteView {
            image: self.image@,
            image_size: self.image_size,
            frames: self.frames@,
            animations: self.animations@.map_values(|t: AnimationTrack| t@),
        }
    }
}

/// A frame's metadata stays inside the component bounds, so sums of a few
/// fields fit comfortably in `i64`.
pub open spec fn frame_wf(f: Frame) -> bool {
    &&& rect_bounded(f.src, RECT_LIMIT as int)
    &&& f.src.w >= 0
    &&& f.src.h >= 0
    &&& vec_bounded(f.offset, RECT_LIMIT as int)
    &&& vec_bounded(f.source_size, RECT_LIMIT as int)
}

/// Well-formedness of a sprite's frame tables: at least one source frame (it
/// is the universal fallback), every expanded entry points at a real frame,
/// and animation names are unambiguous.
pub open spec fn sprite_tables_wf(s: AnimatedSpriteView) -> bool {
    &&& s.frames.len() >= 1
    &&& forall|i: int| 0 <= i < s.frames.len() ==> frame_wf(#[trigger] s.frames[i])
    &&& vec_bounded(s.image_size, RECT_LIMIT as int)
    &&& forall|j: int, k: int|
        0 <= j < s.animations.len() && 0 <= k < s.animations[j].frame_ids.len()
            ==> (#[trigger] s.animations[j].frame_ids[k]) < s.frames.len()
    &&& forall|j: int, k: int|
        0 <= j < k < s.animations.len() ==> (#[trigger] s.animations[j].name) != (
        #[trigger] s.animations[k].name)
}

/// Index of the animation named `name`, if any.
pub open spec fn spec_anim_index_from(s: AnimatedSpriteView, name: Seq<char>, j: int) -> Option<
    int,
>
    decreases s.animations.len() - j,
{
    if j < 0 || j >= s.animations.len() {
        None
    } else if s.animations[j].name == name {
        Some(j)
    } else {
        spec_anim_index_from(s, name, j + 1)
    }
}

pub open spec fn spec_anim_index(s: AnimatedSpriteView, name: Seq<char>) -> Option<int> {
    spec_anim_index_from(s, name, 0)
}

/// Length of the pre-expanded frame table of animation `name`; 0 for an
/// unknown name.
pub open spec fn spec_anim_length(s: AnimatedSpriteView, name: Seq<char>) -> int {
    match spec_anim_index(s, name) {
        Some(j) => s.animations[j].frame_ids.len() as int,
        None => 0,
    }
}

/// Frame metadata for tick `frame` of animation `name`. An unknown name or
/// an out-of-range tick falls back to source frame 0, never an error.
pub open spec fn spec_anim_frame(s: AnimatedSpriteView, name: Seq<char>, frame: int) -> Frame {
    match spec_anim_index(s, name) {
        Some(j) => {
            let ids = s.animations[j].frame_ids;
            if 0 <= frame < ids.len() {
                s.frames[ids[frame] as int]
            } else {
                s.frames[0]
            }
        },
        None => s.frames[0],
    }
}

/// Errors rejected when assembling an animated sprite from sheet data.
#[derive(Clone, Copy, PartialEq, Eq, Structural, Debug)]
pub enum SpritesheetImportError {
    /// The sheet declares no source frames, leaving no fallback frame.
    NoFrames,
    /// An animation refers to a source frame the sheet does not hold.
    FrameOutOfRange,
    /// Two animations share a name.
    DuplicateAnimation,
    /// A frame's metadata or the image size leaves the coordinate range.
    ValueOutOfRange,
}

impl AnimatedSprite {
    #[verifier::type_invariant]
    spec fn tables_wf(self) -> bool {
        sprite_tables_wf(self@)
    }

    /// Assemble an animated sprite, rejecting tables that would leave a
    /// lookup without its defined fallback.
    #[verifier::loop_isolation(false)]
    pub fn new(image: String, image_size: Vec2i, frames: Vec<Frame>, animations: Vec<
        AnimationTrack,
    >) -> (r: Result<AnimatedSprite, SpritesheetImportError>)
        ensures
            match r {
                Ok(s) => s@ == (AnimatedSpriteView {
                    image: image@,
                    image_size,
                    frames: frames@,
                    animations: animations@.map_values(|t: AnimationTrack| t@),
                }) && sprite_tables_wf(s@),
                Err(_) => !sprite_tables_wf(
                    AnimatedSpriteView {
                        image: image@,
                        image_size,
                        frames: frames@,
                        animations: animations@.map_values(|t: AnimationTrack| t@),
                    },
                ),
            },
    {
        let ghost target = AnimatedSpriteView {
            image: image@,
            image_size,
            frames: frames@,
            animations: animations@.map_values(|t: AnimationTrack| t@),
        };
        if frames.len() == 0 {
            return Err(SpritesheetImportError::NoFrames);
        }
        if !(-RECT_LIMIT <= image_size.x && image_size.x <= RECT_LIMIT && -RECT_LIMIT
            <= image_size.y && image_size.y <= RECT_LIMIT) {
            return Err(SpritesheetImportError::ValueOutOfRange);
        }
        let mut i: usize = 0;
        while i < frames.len()
            invariant
                0 <= i <= frames.len(),
                forall|n: int| 0 <= n < i ==> frame_wf(#[trigger] frames@[n]),
            decreases frames.len() - i,
        {
            let f = frames[i];
            let ok = -RECT_LIMIT <= f.src.x && f.src.x <= RECT_LIMIT && -RECT_LIMIT <= f.src.y
                && f.src.y <= RECT_LIMIT && 0 <= f.src.w && f.src.w <= RECT_LIMIT && 0 <= f.src.h
                && f.src.h <= RECT_LIMIT && -RECT_LIMIT <= f.offset.x && f.offset.x <= RECT_LIMIT
                && -RECT_LIMIT <= f.offset.y && f.offset.y <= RECT_LIMIT && -RECT_LIMIT
                <= f.source_size.x && f.source_size.x <= RECT_LIMIT && -RECT_LIMIT
                <= f.source_size.y && f.source_size.y <= RECT_LIMIT;
            if !ok {
                proof {
                    assert(!frame_wf(target.frames[i as int]));
                }
                return Err(SpritesheetImportError::ValueOutOfRange);
            }
            i = i + 1;
        }
        let mut j: usize = 0;
        while j < animations.len()
            invariant
                0 <= j <= animations.len(),
                forall|a: int, b: int|
                    0 <= a < j && 0 <= b < animations@[a].frame_ids@.len() ==> (
                    #[trigger] animations@[a].frame_ids@[b]) < frames@.len(),
                forall|a: int, b: int|
                    0 <= a < b < j ==> (#[trigger] animations@[a].name@) != (
                    #[trigger] animations@[b].name@),
            decreases animations.len() - j,
        {
            let track = &animations[j];
            let mut k: usize = 0;
            while k < track.frame_ids.len()
                invariant
                    0 <= k <= track.frame_ids.len(),
                    track == animations@[j as int],
                    forall|b: int| 0 <= b < k ==> (#[trigger] track.frame_ids@[b]) < frames@.len(),
                decreases track.frame_ids.len() - k,
            {
                if track.frame_ids[k] >= frames.len() {
                    proof {
                        assert(target.animations[j as int].frame_ids[k as int]
                            >= target.frames.len());
                    }
                    return Err(SpritesheetImportError::FrameOutOfRange);
                }
                k = k + 1;
            }
            let mut b: usize = 0;
            while b < j
                invariant
                    0 <= b <= j < animations.len(),
                    track == animations@[j as int],
                    forall|a: int| 0 <= a < b ==> (#[trigger] animations@[a].name@) != track.name@,
                decreases j - b,
            {
                if animations[b].name == track.name {
                    proof {
                        let ghost jj = j as int;
                        assert(target.animations[b as int].name == target.animations[jj].name);
                    }
                    return Err(SpritesheetImportError::DuplicateAnimation);
                }
                b = b + 1;
            }
            j = j + 1;
        }
        let s = AnimatedSprite { image, image_size, frames, animations };
        proof {
            assert(s@ == target);
        }
        Ok(s)
    }

    /// Name of the sheet image file this sprite draws from.
    pub fn get_image_filename(&self) -> (r: &String)
        ensures
            r@ == self@.image,
    {
        &self.image
    }

    /// Size of the sheet image.
    pub fn image_size(&self) -> (r: Vec2i)
        ensures
            r == self@.image_size,
            vec_bounded(r, RECT_LIMIT as int),
    {
        proof {
            use_type_invariant(self);
        }
        self.image_size
    }

    /// Frame metadata for tick `frame` of animation `anim`; unknown names
    /// and out-of-range ticks fall back to source frame 0.
    pub fn get_anim_frame(&self, anim: &String, frame: usize) -> (f: Frame)
        ensures
            f == spec_anim_frame(self@, anim@, frame as int),
            frame_wf(f),
    {
        proof {
            use_type_invariant(self);
        }
        let mut j: usize = 0;
        while j < self.animations.len()
            invariant
                0 <= j <= self.animations@.len(),
                sprite_tables_wf(self@),
                spec_anim_index_from(self@, anim@, j as int) == spec_anim_index(self@, anim@),
            decreases self.animations@.len() - j,
        {
            if self.animations[j].name == *anim {
                let track = &self.animations[j];
                let frame_id: usize = if frame < track.frame_ids.len() {
                    track.frame_ids[frame]
                } else {
                    0
                };
                proof {
                    let ghost jj = j as int;
                    assert(self@.animations[jj] == self.animations@[jj]@);
                    if (frame as int) < self@.animations[jj].frame_ids.len() {
                        assert(self@.animations[jj].frame_ids[frame as int] < self@.frames.len());
                    }
                    assert(frame_wf(self@.frames[frame_id as int]));
                }
                return self.frames[frame_id];
            }
            j = j + 1;
        }
        self.frames[0]
    }

    /// Length of the pre-expanded frame table of `anim`; 0 for an unknown
    /// name.
    pub fn get_anim_length(&self, anim: &String) -> (l: usize)
        ensures
            l == spec_anim_length(self@, anim@),
    {
        proof {
            use_type_invariant(self);
        }
        let mut j: usize = 0;
        while j < self.animations.len()
            invariant
                0 <= j <= self.animations@.len(),
                spec_anim_index_from(self@, anim@, j as int) == spec_anim_index(self@, anim@),
            decreases self.animations@.len() - j,
        {
            if self.animations[j].name == *anim {
                return self.animations[j].frame_ids.len();
            }
            j = j + 1;
        }
        0
    }
}

/// One source frame as the sheet file declares it: the sub-rectangle of
/// the sheet image, the trimmed sprite's placement, the logical cell size,
/// and how long the frame lasts in milliseconds.
#[derive(Clone, Copy, PartialEq, Eq, Structural, Debug)]
pub struct SheetFrame {
    pub frame: Rect,
    pub sprite_source_size: Rect,
    pub source_size: Vec2i,
    pub duration_ms: u32,
}

/// One named animation as the sheet file declares it: an inclusive range
/// of source frames.
#[derive(Debug)]
pub struct SheetTag {
    pub name: String,
    pub from: usize,
    pub to: usize,
}

/// Mathematical shape of a `SheetTag`.
pub struct SheetTagView {
    pub name: Seq<char>,
    pub from: usize,
    pub to: usize,
}

impl View for SheetTag {
    type V = SheetTagView;

    open spec fn view(&self) -> SheetTagView {
        SheetTagView { name: self.name@, from: self.from, to: self.to }
    }
}

/// A sprite sheet as loaded from disk: source frames, named frame ranges,
/// and the sheet image's file name and size.
#[derive(Debug)]
pub struct SpriteSheet {
    pub frames: Vec<SheetFrame>,
    pub tags: Vec<SheetTag>,
    pub image: String,
    pub image_size: Vec2i,
}

/// The nominal tick rate the expansion below assumes, in frames per
/// second.
pub const EXPANSION_RATE: u32 = 60;

/// Longest frame duration the conversion accepts, in milliseconds; it
/// keeps every expanded table small enough to hold in memory.
pub const MAX_FRAME_DURATION_MS: u32 = 600000;

/// How many ticks a source frame lasting `d` milliseconds occupies at the
/// nominal rate: `d * rate / 1000`, rounded to the nearest tick.
pub open spec fn expanded_count(d: u32) -> int {
    (d * EXPANSION_RATE + 500) / 1000
}

/// The frame metadata a sheet frame converts to.
pub open spec fn frame_of_sheet(f: SheetFrame) -> Frame {
    Frame {
        src: f.frame,
        offset: Vec2i { x: f.sprite_source_size.x, y: f.sprite_source_size.y },
        source_size: f.source_size,
    }
}

/// The expanded frame table of the inclusive range `from..=to`: each
/// source frame repeated once per tick it lasts.
pub open spec fn expand_range(frames: Seq<SheetFrame>, from: int, to: int) -> Seq<usize>
    decreases to + 1 - from,
{
    if from > to || from < 0 {
        Seq::empty()
    } else {
        Seq::new(expanded_count(frames[from].duration_ms) as nat, |k: int| from as usize)
            + expand_range(frames, from + 1, to)
    }
}

/// Mathematical shape of a sheet's tag list.
pub open spec fn sheet_tags_view(ts: Seq<SheetTag>) -> Seq<SheetTagView> {
    ts.map_values(|t: SheetTag| t@)
}

/// A defect that makes a sheet unconvertible: no frames at all, metadata
/// or the image size outside the coordinate bounds, a tag range past the
/// frame list, a frame duration past the cap, or two tags sharing a name.
pub open spec fn sheet_defect(
    frames: Seq<SheetFrame>,
    tags: Seq<SheetTagView>,
    image_size: Vec2i,
) -> bool {
    ||| frames.len() == 0
    ||| !vec_bounded(image_size, RECT_LIMIT as int)
    ||| exists|i: int| 0 <= i < frames.len() && !frame_wf(frame_of_sheet(#[trigger] frames[i]))
    ||| exists|t: int|
        0 <= t < tags.len() && (#[trigger] tags[t]).from <= tags[t].to && tags[t].to
            >= frames.len()
    ||| exists|t: int, f: int|
        0 <= t < tags.len() && (#[trigger] tags[t]).from <= f <= tags[t].to && 0 <= f
            < frames.len() && (#[trigger] frames[f]).duration_ms > MAX_FRAME_DURATION_MS
    ||| exists|a: int, b: int|
        0 <= a < b < tags.len() && (#[trigger] tags[a]).name == (#[trigger] tags[b]).name
}

/// Every entry of an expanded range lies inside the range.
proof fn lemma_expand_range_values(frames: Seq<SheetFrame>, from: int, to: int)
    requires
        0 <= from,
        to <= usize::MAX,
    ensures
        forall|k: int|
            0 <= k < expand_range(frames, from, to).len() ==> from <= (#[trigger] expand_range(
                frames,
                from,
                to,
            )[k]) <= to,
    decreases to + 1 - from,
{
    if from <= to {
        lemma_expand_range_values(frames, from + 1, to);
        let head = Seq::new(expanded_count(frames[from].duration_ms) as nat, |k: int| from as usize);
        let tail = expand_range(frames, from + 1, to);
        assert forall|k: int|
            0 <= k < expand_range(frames, from, to).len() implies from <= (
        #[trigger] expand_range(frames, from, to)[k]) <= to by {
            if k >= head.len() {
                assert(expand_range(frames, from, to)[k] == tail[k - head.len()]);
            }
        }
    }
}

impl SpriteSheet {
    /// Name of the sheet image file.
    pub fn get_image_filename(&self) -> (r: &String)
        ensures
            r@ == self.image@,
    {
        &self.image
    }

    /// Convert the sheet into an animated sprite: each frame's metadata is
    /// carried over, and each named range is expanded into one table entry
    /// per tick at the nominal rate. Conversion fails exactly on the
    /// defects `sheet_defect` names — an empty frame list, out-of-bounds
    /// metadata, a range past the frame list, an over-long duration, or
    /// duplicate names — and succeeds on every other sheet.
    #[verifier::loop_isolation(false)]
    pub fn convert(&self) -> (r: Result<AnimatedSprite, SpritesheetImportError>)
        ensures
            match r {
                Ok(s) => {
                    &&& !sheet_defect(self.frames@, sheet_tags_view(self.tags@), self.image_size)
                    &&& sprite_tables_wf(s@)
                    &&& s@.image == self.image@
                    &&& s@.image_size == self.image_size
                    &&& s@.frames.len() == self.frames@.len()
                    &&& forall|i: int|
                        0 <= i < self.frames@.len() ==> s@.frames[i] == frame_of_sheet(
                            #[trigger] self.frames@[i],
                        )
                    &&& s@.animations.len() == self.tags@.len()
                    &&& forall|j: int|
                        0 <= j < self.tags@.len() ==> (#[trigger] s@.animations[j]).name
                            == self.tags@[j]@.name && s@.animations[j].frame_ids == expand_range(
                            self.frames@,
                            self.tags@[j]@.from as int,
                            self.tags@[j]@.to as int,
                        )
                },
                Err(_) => sheet_defect(
                    self.frames@,
                    sheet_tags_view(self.tags@),
                    self.image_size,
                ),
            },
    {
        if self.frames.len() == 0 {
            return Err(SpritesheetImportError::NoFrames);
        }
        if !(-RECT_LIMIT <= self.image_size.x && self.image_size.x <= RECT_LIMIT && -RECT_LIMIT
            <= self.image_size.y && self.image_size.y <= RECT_LIMIT) {
            return Err(SpritesheetImportError::ValueOutOfRange);
        }
        let mut frames: Vec<Frame> = Vec::new();
        let mut i: usize = 0;
        while i < self.frames.len()
            invariant
                0 <= i <= self.frames@.len(),
                frames@.len() == i,
                forall|j: int|
                    0 <= j < i ==> frames@[j] == frame_of_sheet(#[trigger] self.frames@[j]),
                forall|j: int|
                    0 <= j < i ==> frame_wf(frame_of_sheet(#[trigger] self.frames@[j])),
            decreases self.frames@.len() - i,
        {
            let f = self.frames[i];
            let fr = Frame {
                src: f.frame,
                offset: Vec2i { x: f.sprite_source_size.x, y: f.sprite_source_size.y },
                source_size: f.source_size,
            };
            let ok = -RECT_LIMIT <= fr.src.x && fr.src.x <= RECT_LIMIT && -RECT_LIMIT <= fr.src.y
                && fr.src.y <= RECT_LIMIT && 0 <= fr.src.w && fr.src.w <= RECT_LIMIT && 0
                <= fr.src.h && fr.src.h <= RECT_LIMIT && -RECT_LIMIT <= fr.offset.x && fr.offset.x
                <= RECT_LIMIT && -RECT_LIMIT <= fr.offset.y && fr.offset.y <= RECT_LIMIT
                && -RECT_LIMIT <= fr.source_size.x && fr.source_size.x <= RECT_LIMIT && -RECT_LIMIT
                <= fr.source_size.y && fr.source_size.y <= RECT_LIMIT;
            if !ok {
                proof {
                    assert(!frame_wf(frame_of_sheet(self.frames@[i as int])));
                }
                return Err(SpritesheetImportError::ValueOutOfRange);
            }
            frames.push(fr);
            i = i + 1;
        }
        let mut a: usize = 0;
        while a < self.tags.len()
            invariant
                0 <= a <= self.tags@.len(),
                forall|x: int, y: int|
                    0 <= x < y < a ==> (#[trigger] self.tags@[x]@.name) != (
                    #[trigger] self.tags@[y]@.name),
            decreases self.tags@.len() - a,
        {
            let mut b: usize = 0;
            while b < a
                invariant
                    0 <= b <= a < self.tags@.len(),
                    forall|x: int| 0 <= x < b ==> (#[trigger] self.tags@[x]@.name) != self.tags@[a as int]@.name,
                decreases a - b,
            {
                if self.tags[b].name == self.tags[a].name {
                    proof {
                        let ghost tv = sheet_tags_view(self.tags@);
                        assert(tv[b as int].name == tv[a as int].name);
                    }
                    return Err(SpritesheetImportError::DuplicateAnimation);
                }
                b = b + 1;
            }
            a = a + 1;
        }
        let mut animations: Vec<AnimationTrack> = Vec::new();
        let mut t: usize = 0;
        while t < self.tags.len()
            invariant
                0 <= t <= self.tags@.len(),
                animations@.len() == t,
                forall|j: int|
                    0 <= j < t ==> (#[trigger] animations@[j])@.name == self.tags@[j]@.name
                        && animations@[j]@.frame_ids == expand_range(
                        self.frames@,
                        self.tags@[j]@.from as int,
                        self.tags@[j]@.to as int,
                    ),
                forall|j: int|
                    0 <= j < t ==> !((#[trigger] self.tags@[j]@.from) <= self.tags@[j]@.to
                        && self.tags@[j]@.to >= self.frames@.len()),
                forall|j: int, ff: int|
                    0 <= j < t && (#[trigger] self.tags@[j]@.from) <= ff <= self.tags@[j]@.to && 0
                        <= ff < self.frames@.len() ==> (#[trigger] self.frames@[ff]).duration_ms
                        <= MAX_FRAME_DURATION_MS,
            decreases self.tags@.len() - t,
        {
            let tag = &self.tags[t];
            let mut ids: Vec<usize> = Vec::new();
            if tag.from <= tag.to {
                if tag.to >= self.frames.len() {
                    proof {
                        let ghost tv = sheet_tags_view(self.tags@);
                        assert(tv[t as int].from <= tv[t as int].to && tv[t as int].to
                            >= self.frames@.len());
                    }
                    return Err(SpritesheetImportError::FrameOutOfRange);
                }
                let mut f: usize = tag.from;
                while f <= tag.to
                    invariant
                        tag == self.tags@[t as int],
                        tag.from <= f <= tag.to + 1,
                        tag.to < self.frames@.len(),
                        forall|ff: int|
                            tag.from <= ff < f ==> (#[trigger] self.frames@[ff]).duration_ms
                                <= MAX_FRAME_DURATION_MS,
                        expand_range(self.frames@, tag.from as int, tag.to as int) == ids@
                            + expand_range(self.frames@, f as int, tag.to as int),
                    decreases tag.to + 1 - f,
                {
                    let d = self.frames[f].duration_ms;
                    if d > MAX_FRAME_DURATION_MS {
                        proof {
                            let ghost tv = sheet_tags_view(self.tags@);
                            assert(tv[t as int].from <= f as int <= tv[t as int].to
                                && self.frames@[f as int].duration_ms > MAX_FRAME_DURATION_MS);
                        }
                        return Err(SpritesheetImportError::ValueOutOfRange);
                    }
                    let count: u64 = ((d as u64) * (EXPANSION_RATE as u64) + 500) / 1000;
                    let ghost pre = ids@;
                    let mut c: u64 = 0;
                    while c < count
                        invariant
                            0 <= c <= count,
                            count == expanded_count(self.frames@[f as int].duration_ms),
                            f <= tag.to < self.frames@.len(),
                            ids@ == pre + Seq::new(c as nat, |k: int| f as usize),
                        decreases count - c,
                    {
                        ids.push(f);
                        proof {
                            assert(ids@ =~= pre + Seq::new((c + 1) as nat, |k: int| f as usize));
                        }
                        c = c + 1;
                    }
                    proof {
                        assert(expand_range(self.frames@, f as int, tag.to as int) == Seq::new(
                            expanded_count(self.frames@[f as int].duration_ms) as nat,
                            |k: int| f as usize,
                        ) + expand_range(self.frames@, f + 1, tag.to as int));
                        assert(ids@ + expand_range(self.frames@, f + 1, tag.to as int) =~= pre
                            + (Seq::new(
                            expanded_count(self.frames@[f as int].duration_ms) as nat,
                            |k: int| f as usize,
                        ) + expand_range(self.frames@, f + 1, tag.to as int)));
                    }
                    f = f + 1;
                }
            }
            proof {
                if tag.from > tag.to {
                    assert(expand_range(self.frames@, tag.from as int, tag.to as int)
                        =~= Seq::<usize>::empty());
                    assert(ids@ =~= Seq::<usize>::empty());
                }
                assert(expand_range(self.frames@, tag.from as int, tag.to as int) =~= ids@);
            }
            animations.push(AnimationTrack { name: tag.name.clone(), frame_ids: ids });
            t = t + 1;
        }
        let ghost target = AnimatedSpriteView {
            image: self.image@,
            image_size: self.image_size,
            frames: frames@,
            animations: animations@.map_values(|tr: AnimationTrack| tr@),
        };
        proof {
            assert forall|i: int| 0 <= i < target.frames.len() implies frame_wf(
                #[trigger] target.frames[i],
            ) by {
                assert(target.frames[i] == frame_of_sheet(self.frames@[i]));
            }
            assert forall|j: int, k: int|
                0 <= j < target.animations.len() && 0 <= k < target.animations[j].frame_ids.len()
                    implies (#[trigger] target.animations[j].frame_ids[k])
                < target.frames.len() by {
                assert(target.animations[j] == animations@[j]@);
                lemma_expand_range_values(
                    self.frames@,
                    self.tags@[j]@.from as int,
                    self.tags@[j]@.to as int,
                );
            }
            assert forall|x: int, y: int|
                0 <= x < y < target.animations.len() implies (
            #[trigger] target.animations[x].name) != (#[trigger] target.animations[y].name) by {
                assert(target.animations[x] == animations@[x]@);
                assert(target.animations[y] == animations@[y]@);
            }
            assert(sprite_tables_wf(target));
            assert(!sheet_defect(self.frames@, sheet_tags_view(self.tags@), self.image_size));
        }
        match AnimatedSprite::new(self.image.clone(), self.image_size, frames, animations) {
            Ok(s) => Ok(s),
            Err(e) => {
                proof {
                    assert(false);
                }
                Err(e)
            },
        }
    }
}

/// One named texture and its pixel size.
#[derive(Debug)]
pub struct TextureEntry {
    pub name: String,
    pub size: Vec2i,
}

/// Mathematical shape of a `TextureEntry`.
pub struct TextureEntryView {
    pub name: Seq<char>,
    pub size: Vec2i,
}

impl View for TextureEntry {
    type V = TextureEntryView;

    open spec fn view(&self) -> TextureEntryView {
        TextureEntryView { name: self.name@, size: self.size }
    }
}

/// The asset catalog the game logic reads: the player concept texture, the
/// player's animated sprite, the animated sprites, and the named textures
/// with their sizes. The collaborator that loads files fills it once at
/// start-up.
#[derive(Debug)]
pub struct Assets {
    pub(crate) char_concept: TextureId,
    pub(crate) char_sprite: AnimatedSpriteId,
    pub(crate) sprites: Vec<AnimatedSprite>,
    pub(crate) textures: Vec<TextureEntry>,
}

/// Mathematical shape of the catalog.
#[verifier::ext_equal]
pub struct AssetsView {
    pub char_concept: TextureIdView,
    pub char_sprite: AnimatedSpriteId,
    pub sprites: Seq<AnimatedSpriteView>,
    pub textures: Seq<TextureEntryView>,
}

impl View for Assets {
    type V = AssetsView;

    open(crate) spec fn view(&self) -> AssetsView {
        AssetsView {
            char_concept: self.char_concept@,
            char_sprite: self.char_sprite,
            sprites: self.sprites@.map_values(|s: AnimatedSprite| s@),
            textures: self.textures@.map_values(|t: TextureEntry| t@),
        }
    }
}

/// The sprite table the catalog holds under `id`, if the id is in range.
pub open spec fn sprite_in_catalog(a: AssetsView, id: AnimatedSpriteId) -> Option<
    AnimatedSpriteView,
> {
    if id.0 < a.sprites.len() {
        Some(a.sprites[id.0 as int])
    } else {
        None
    }
}

/// Size of the texture `id` refers to: a named texture's recorded size (the
/// first entry under that name), or the sheet image size of an animated
/// sprite. `None` for unknown names and out-of-range sprite ids.
pub open spec fn spec_texture_size_from(a: AssetsView, name: Seq<char>, i: int) -> Option<Vec2i>
    decreases a.textures.len() - i,
{
    if i < 0 || i >= a.textures.len() {
        None
    } else if a.textures[i].name == name {
        Some(a.textures[i].size)
    } else {
        spec_texture_size_from(a, name, i + 1)
    }
}

pub open spec fn spec_texture_size(a: AssetsView, id: TextureIdView) -> Option<Vec2i> {
    match id {
        TextureIdView::Name(name) => spec_texture_size_from(a, name, 0),
        TextureIdView::Sprite(sid) => match sprite_in_catalog(a, sid) {
            Some(s) => Some(s.image_size),
            None => None,
        },
    }
}

impl Assets {
    /// Every recorded texture size stays inside the component bounds.
    pub open spec fn wf(self) -> bool {
        forall|i: int|
            0 <= i < self@.textures.len() ==> vec_bounded(
                (#[trigger] self@.textures[i]).size,
                RECT_LIMIT as int,
            )
    }

    /// An empty catalog. The player concept texture and the player's
    /// animated sprite are fixed references the caller supplies.
    pub fn new(char_concept: TextureId, char_sprite: AnimatedSpriteId) -> (a: Assets)
        ensures
            a.wf(),
            a@.char_concept == char_concept@,
            a@.char_sprite == char_sprite,
            a@.sprites == Seq::<AnimatedSpriteView>::empty(),
            a@.textures == Seq::<TextureEntryView>::empty(),
    {
        let a = Assets { char_concept, char_sprite, sprites: Vec::new(), textures: Vec::new() };
        proof {
            assert(a@.sprites =~= Seq::<AnimatedSpriteView>::empty());
            assert(a@.textures =~= Seq::<TextureEntryView>::empty());
        }
        a
    }

    /// Add an animated sprite; its id is its position in the catalog.
    pub fn add_sprite(&mut self, s: AnimatedSprite) -> (id: AnimatedSpriteId)
        requires
            old(self).wf(),
        ensures
            final(self).wf(),
            id == AnimatedSpriteId(old(self)@.sprites.len() as usize),
            final(self)@ == (AssetsView { sprites: old(self)@.sprites.push(s@), ..old(self)@ }),
    {
        let id = AnimatedSpriteId(self.sprites.len());
        self.sprites.push(s);
        proof {
            assert(self@ =~= (AssetsView { sprites: old(self)@.sprites.push(s@), ..old(self)@ }));
        }
        id
    }

    /// Record a named texture and its size.
    pub fn add_texture(&mut self, entry: TextureEntry) -> (r: ())
        requires
            old(self).wf(),
            vec_bounded(entry.size, RECT_LIMIT as int),
        ensures
            final(self).wf(),
            final(self)@ == (AssetsView { textures: old(self)@.textures.push(entry@), ..old(self)@ }),
    {
        let ghost e_view = entry@;
        self.textures.push(entry);
        proof {
            assert(self@ =~= (AssetsView { textures: old(self)@.textures.push(e_view), ..old(self)@ }));
        }
    }

    /// The texture the player concept art is drawn with.
    pub fn char_concept(&self) -> (r: &TextureId)
        ensures
            r@ == self@.char_concept,
    {
        &self.char_concept
    }

    /// The player's animated sprite.
    pub fn char_sprite(&self) -> (r: AnimatedSpriteId)
        ensures
            r == self@.char_sprite,
    {
        self.char_sprite
    }

    /// Make a texture reference from a logical name. The name is not
    /// checked against the catalog, exactly as a missing file is only
    /// noticed when drawn.
    pub fn get_texture(&self, name: &str) -> (r: TextureId)
        requires
            name@.len() <= USTR_CAP,
        ensures
            r@ == TextureIdView::Name(name@),
    {
        TextureId::from_name(name)
    }

    /// Borrow the animated sprite `id` refers to.
    pub fn get_sprite(&self, id: AnimatedSpriteId) -> (r: Option<&AnimatedSprite>)
        ensures
            match r {
                Some(s) => sprite_in_catalog(self@, id) == Some(s@),
                None => sprite_in_catalog(self@, id) is None,
            },
    {
        if id.0 < self.sprites.len() {
            Some(&self.sprites[id.0])
        } else {
            None
        }
    }

    /// Size of the texture behind `id`, if the catalog knows it.
    #[verifier::loop_isolation(false)]
    pub fn texture_size(&self, id: &TextureId) -> (r: Option<Vec2i>)
        requires
            self.wf(),
        ensures
            r == spec_texture_size(self@, id@),
            match r {
                Some(s) => vec_bounded(s, RECT_LIMIT as int),
                None => true,
            },
    {
        match id {
            TextureId::TextureId(name) => {
                let mut i: usize = 0;
                while i < self.textures.len()
                    invariant
                        0 <= i <= self@.textures.len(),
                        self.wf(),
                        spec_texture_size_from(self@, name@, i as int) == spec_texture_size_from(
                            self@,
                            name@,
                            0,
                        ),
                    decreases self@.textures.len() - i,
                {
                    if self.textures[i].name == *name.as_string() {
                        proof {
                            assert(self@.textures[i as int] == self.textures@[i as int]@);
                        }
                        return Some(self.textures[i].size);
                    }
                    i = i + 1;
                }
                None
            },
            TextureId::AnimatedSpriteId(sid) => {
                match self.get_sprite(*sid) {
                    Some(s) => Some(s.image_size()),
                    None => None,
                }
            },
        }
    }
}

} // verus!
