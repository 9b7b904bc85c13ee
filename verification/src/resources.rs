//! The kinds of native resource, the arena of each kind, and the routing of a
//! release to the arena that owns the address.

use vstd::prelude::*;
use crate::address::AddressRange;
use crate::heap::{Released, ResourceHeap};
use crate::music_heap::MusicStreams;

verus! {

/// The kinds of native resource. Each kind has an arena of its own.
#[derive(Debug, Clone, Copy, PartialEq, Eq, Structural)]
pub enum ResourceKind {
    Camera,
    Texture,
    Sound,
    Music,
    RenderTexture,
    Font,
}

impl ResourceKind {
    /// The capacity of the arena of each kind, where nothing overrides it.
    pub open spec fn spec_default_capacity(self) -> usize {
        match self {
            ResourceKind::Camera => 100,
            ResourceKind::Texture => 1000,
            ResourceKind::Sound => 1000,
            ResourceKind::Music => 1000,
            ResourceKind::RenderTexture => 1000,
            ResourceKind::Font => 10,
        }
    }

    /// The environment variable that overrides the capacity of each kind.
    pub open spec fn spec_capacity_variable(self) -> Seq<char> {
        match self {
            ResourceKind::Camera => "ROC_RAY_MAX_CAMERAS_HEAP_SIZE"@,
            ResourceKind::Texture => "ROC_RAY_MAX_TEXTURES_HEAP_SIZE"@,
            ResourceKind::Sound => "ROC_RAY_MAX_SOUNDS_HEAP_SIZE"@,
            ResourceKind::Music => "ROC_RAY_MAX_MUSIC_STREAMS_HEAP_SIZE"@,
            ResourceKind::RenderTexture => "ROC_RAY_MAX_RENDER_TEXTURE_HEAP_SIZE"@,
            ResourceKind::Font => "ROC_RAY_MAX_FONT_HEAP_SIZE"@,
        }
    }

    /// What the managed application is told when the arena of a kind is
    /// full.
    pub open spec fn spec_out_of_memory_message(self) -> Seq<char> {
        match self {
            ResourceKind::Camera => "Unable to load camera, out of memory in the camera heap. Consider using ROC_RAY_MAX_CAMERAS_HEAP_SIZE env var to increase the heap size."@,
            ResourceKind::Texture => "Unable to load texture, out of memory in the texture heap. Consider using ROC_RAY_MAX_TEXTURES_HEAP_SIZE env var to increase the heap size."@,
            ResourceKind::Sound => "Unable to load sound, out of memory in the sound heap. Consider using ROC_RAY_MAX_SOUNDS_HEAP_SIZE env var to increase the heap size."@,
            ResourceKind::Music => "Unable to load music stream, out of memory in the music heap. Consider using ROC_RAY_MAX_MUSIC_STREAMS_HEAP_SIZE env var to increase the heap size."@,
            ResourceKind::RenderTexture => "Unable to load render texture, out of memory in the render texture heap. Consider using ROC_RAY_MAX_RENDER_TEXTURE_HEAP_SIZE env var to increase the heap size."@,
            ResourceKind::Font => "Unable to load font, out of memory in the font heap. Consider using ROC_RAY_MAX_FONT_HEAP_SIZE env var to increase the heap size."@,
        }
    }

    /// The capacity of the arena of the kind, where nothing overrides it.
    pub fn default_capacity(self) -> (capacity: usize)
        ensures
            capacity == self.spec_default_capacity(),
    {
        match self {
            ResourceKind::Camera => 100,
            ResourceKind::Texture => 1000,
            ResourceKind::Sound => 1000,
            ResourceKind::Music => 1000,
            ResourceKind::RenderTexture => 1000,
            ResourceKind::Font => 10,
        }
    }

    /// The capacity of the arena of the kind: what overrides it, where
    /// something does, else its default.
    pub fn capacity(self, overridden: Option<usize>) -> (capacity: usize)
        ensures
            capacity == match overridden {
                Some(given) => given,
                None => self.spec_default_capacity(),
            },
    {
        match overridden {
            Some(given) => given,
            None => self.default_capacity(),
        }
    }

    /// The capacity of the arena of the kind, given the text of the
    /// variable that overrides it, where the variable is set: what the text
    /// sets, and the default where it sets nothing.
    pub fn capacity_from_setting(self, setting: Option<&Vec<u8>>) -> (capacity: usize)
        ensures
            capacity == match setting {
                Some(text) => match capacity_setting(text@) {
                    Some(given) => given,
                    None => self.spec_default_capacity(),
                },
                None => self.spec_default_capacity(),
            },
    {
        match setting {
            Some(text) => self.capacity(parse_capacity(text)),
            None => self.default_capacity(),
        }
    }

    /// The environment variable that overrides the capacity of the kind.
    pub fn capacity_variable(self) -> (name: &'static str)
        ensures
            name@ == self.spec_capacity_variable(),
    {
        match self {
            ResourceKind::Camera => "ROC_RAY_MAX_CAMERAS_HEAP_SIZE",
            ResourceKind::Texture => "ROC_RAY_MAX_TEXTURES_HEAP_SIZE",
            ResourceKind::Sound => "ROC_RAY_MAX_SOUNDS_HEAP_SIZE",
            ResourceKind::Music => "ROC_RAY_MAX_MUSIC_STREAMS_HEAP_SIZE",
            ResourceKind::RenderTexture => "ROC_RAY_MAX_RENDER_TEXTURE_HEAP_SIZE",
            ResourceKind::Font => "ROC_RAY_MAX_FONT_HEAP_SIZE",
        }
    }

    /// What the managed application is told when the arena of the kind is
    /// full. Exhaustion is an error value for the application to handle, not
    /// the end of the session.
    pub fn out_of_memory_message(self) -> (msg: &'static str)
        ensures
            msg@ == self.spec_out_of_memory_message(),
    {
        match self {
            ResourceKind::Camera => "Unable to load camera, out of memory in the camera heap. Consider using ROC_RAY_MAX_CAMERAS_HEAP_SIZE env var to increase the heap size.",
            ResourceKind::Texture => "Unable to load texture, out of memory in the texture heap. Consider using ROC_RAY_MAX_TEXTURES_HEAP_SIZE env var to increase the heap size.",
            ResourceKind::Sound => "Unable to load sound, out of memory in the sound heap. Consider using ROC_RAY_MAX_SOUNDS_HEAP_SIZE env var to increase the heap size.",
            ResourceKind::Music => "Unable to load music stream, out of memory in the music heap. Consider using ROC_RAY_MAX_MUSIC_STREAMS_HEAP_SIZE env var to increase the heap size.",
            ResourceKind::RenderTexture => "Unable to load render texture, out of memory in the render texture heap. Consider using ROC_RAY_MAX_RENDER_TEXTURE_HEAP_SIZE env var to increase the heap size.",
            ResourceKind::Font => "Unable to load font, out of memory in the font heap. Consider using ROC_RAY_MAX_FONT_HEAP_SIZE env var to increase the heap size.",
        }
    }
}

/// The byte is a decimal digit.
pub open spec fn is_digit(byte: u8) -> bool {
    48 <= byte <= 57
}

/// The number that the decimal digits write.
pub open spec fn digits_value(digits: Seq<u8>) -> nat
    decreases digits.len(),
{
    if digits.len() == 0 {
        0
    } else {
        digits_value(digits.drop_last()) * 10 + (digits.last() - 48) as nat
    }
}

/// The text without the plus sign that may stand before the digits.
pub open spec fn unsigned_part(text: Seq<u8>) -> Seq<u8> {
    if text.len() > 0 && text[0] == 43 {
        text.skip(1)
    } else {
        text
    }
}

/// The capacity that a text sets: the text is one decimal digit or more,
/// with or without a plus sign before them and with nothing else around them,
/// and the number fits the address space. Any other text sets none.
pub open spec fn capacity_setting(text: Seq<u8>) -> Option<usize> {
    let digits = unsigned_part(text);
    if digits.len() > 0 && (forall|i: int| 0 <= i < digits.len() ==> is_digit(#[trigger] digits[i]))
        && digits_value(digits) <= usize::MAX {
        Some(digits_value(digits) as usize)
    } else {
        None
    }
}

/// The number that digits write is no smaller than the number that the first
/// of them write.
pub proof fn lemma_digits_value_grows(digits: Seq<u8>, n: int)
    requires
        0 <= n <= digits.len(),
        forall|i: int| 0 <= i < digits.len() ==> is_digit(#[trigger] digits[i]),
    ensures
        digits_value(digits.take(n)) <= digits_value(digits),
    decreases digits.len() - n,
{
    if n < digits.len() {
        assert(digits.take(n + 1).drop_last() =~= digits.take(n));
        assert(is_digit(digits[n]));
        lemma_digits_value_grows(digits, n + 1);
    } else {
        assert(digits.take(n) =~= digits);
    }
}

/// Reads the capacity that a text sets, if it sets one.
pub fn parse_capacity(text: &Vec<u8>) -> (capacity: Option<usize>)
    ensures
        capacity == capacity_setting(text@),
{
    let start: usize = if text.len() > 0 && text[0] == 43 {
        1
    } else {
        0
    };
    let ghost digits = unsigned_part(text@);
    proof {
        assert(text@.skip(0) =~= text@);
    }
    if start == text.len() {
        return None;
    }
    let mut value: usize = 0;
    let mut i: usize = start;
    while i < text.len()
        invariant
            start <= i <= text@.len(),
            digits == unsigned_part(text@),
            digits == text@.skip(start as int),
            forall|k: int| 0 <= k < i - start ==> is_digit(#[trigger] digits[k]),
            value == digits_value(digits.take(i - start)),
        decreases text@.len() - i,
    {
        let byte = text[i];
        proof {
            assert(digits[i - start] == byte);
            assert(digits.take(i - start + 1).drop_last() =~= digits.take(i - start));
        }
        if byte < 48 || byte > 57 {
            proof {
                assert(!is_digit(digits[i - start]));
            }
            return None;
        }
        proof {
            assert(digits_value(digits.take(i - start + 1)) == value * 10 + (byte - 48));
        }
        let next = match value.checked_mul(10) {
            Some(tens) => tens.checked_add((byte - 48) as usize),
            None => None,
        };
        match next {
            Some(next) => {
                value = next;
            },
            None => {
                proof {
                    if forall|k: int| 0 <= k < digits.len() ==> is_digit(#[trigger] digits[k]) {
                        lemma_digits_value_grows(digits, i - start + 1);
                    }
                }
                return None;
            },
        }
        i = i + 1;
    }
    proof {
        assert(digits.take(i - start) =~= digits);
    }
    Some(value)
}

/// The address ranges of the six arenas.
#[derive(Debug, Clone, Copy, PartialEq, Eq, Structural)]
pub struct HeapRanges {
    pub camera: AddressRange,
    pub texture: AddressRange,
    pub sound: AddressRange,
    pub music: AddressRange,
    pub render_texture: AddressRange,
    pub font: AddressRange,
}

/// The capacities of the six arenas.
#[derive(Debug, Clone, Copy, PartialEq, Eq, Structural)]
pub struct HeapCapacities {
    pub camera: usize,
    pub texture: usize,
    pub sound: usize,
    pub music: usize,
    pub render_texture: usize,
    pub font: usize,
}

/// Where a release goes.
#[derive(Debug, Clone, Copy, PartialEq, Eq, Structural)]
pub enum Deallocation {
    /// To the arena of the kind, which owns the address.
    Heap(ResourceKind),
    /// To the general allocator: no arena owns the address.
    General,
}

impl HeapRanges {
    /// The range of the arena of a kind.
    pub open spec fn range_of(self, kind: ResourceKind) -> AddressRange {
        match kind {
            ResourceKind::Camera => self.camera,
            ResourceKind::Texture => self.texture,
            ResourceKind::Sound => self.sound,
            ResourceKind::Music => self.music,
            ResourceKind::RenderTexture => self.render_texture,
            ResourceKind::Font => self.font,
        }
    }

    /// Each of the six ranges is well formed.
    pub open spec fn wf(self) -> bool {
        forall|kind: ResourceKind| (#[trigger] self.range_of(kind)).wf()
    }

    /// No two of the six ranges share an address.
    pub open spec fn disjoint(self) -> bool {
        forall|a: ResourceKind, b: ResourceKind|
            a != b ==> (#[trigger] self.range_of(a)).disjoint(#[trigger] self.range_of(b))
    }

    /// The kind whose arena is asked first to own `addr` and does: the
    /// arenas are asked in the order camera, texture, sound, music, render
    /// texture, font.
    pub open spec fn spec_owner(self, addr: usize) -> Option<ResourceKind> {
        if self.camera.spec_contains(addr) {
            Some(ResourceKind::Camera)
        } else if self.texture.spec_contains(addr) {
            Some(ResourceKind::Texture)
        } else if self.sound.spec_contains(addr) {
            Some(ResourceKind::Sound)
        } else if self.music.spec_contains(addr) {
            Some(ResourceKind::Music)
        } else if self.render_texture.spec_contains(addr) {
            Some(ResourceKind::RenderTexture)
        } else if self.font.spec_contains(addr) {
            Some(ResourceKind::Font)
        } else {
            None
        }
    }

    /// Where the release of `addr` goes.
    pub open spec fn spec_route(self, addr: usize) -> Deallocation {
        match self.spec_owner(addr) {
            Some(kind) => Deallocation::Heap(kind),
            None => Deallocation::General,
        }
    }

    /// The range of the arena of a kind.
    pub fn range(&self, kind: ResourceKind) -> (range: AddressRange)
        ensures
            range == self.range_of(kind),
    {
        match kind {
            ResourceKind::Camera => self.camera,
            ResourceKind::Texture => self.texture,
            ResourceKind::Sound => self.sound,
            ResourceKind::Music => self.music,
            ResourceKind::RenderTexture => self.render_texture,
            ResourceKind::Font => self.font,
        }
    }

    /// The kind of the arena that owns `addr`, if one does. Nothing is
    /// dereferenced to find out.
    pub fn owner(&self, addr: usize) -> (kind: Option<ResourceKind>)
        requires
            self.wf(),
        ensures
            kind == self.spec_owner(addr),
    {
        proof {
            assert(self.range_of(ResourceKind::Camera).wf());
            assert(self.range_of(ResourceKind::Texture).wf());
            assert(self.range_of(ResourceKind::Sound).wf());
            assert(self.range_of(ResourceKind::Music).wf());
            assert(self.range_of(ResourceKind::RenderTexture).wf());
            assert(self.range_of(ResourceKind::Font).wf());
        }
        if self.camera.contains(addr) {
            Some(ResourceKind::Camera)
        } else if self.texture.contains(addr) {
            Some(ResourceKind::Texture)
        } else if self.sound.contains(addr) {
            Some(ResourceKind::Sound)
        } else if self.music.contains(addr) {
            Some(ResourceKind::Music)
        } else if self.render_texture.contains(addr) {
            Some(ResourceKind::RenderTexture)
        } else if self.font.contains(addr) {
            Some(ResourceKind::Font)
        } else {
            None
        }
    }

    /// Six ranges laid out one behind the other from `base`, each with slots
    /// of `stride` addresses, unless a slot would be empty or the last range
    /// would leave the address space.
    pub fn laid_out(base: usize, stride: usize, capacities: HeapCapacities) -> (ranges: Option<
        HeapRanges,
    >)
        ensures
            ranges is Some ==> {
                let r = ranges.unwrap();
                &&& r.wf()
                &&& r.disjoint()
                &&& r.camera == (AddressRange { base, stride, slots: capacities.camera })
                &&& r.texture.base == r.camera.end() && r.texture.slots == capacities.texture
                &&& r.sound.base == r.texture.end() && r.sound.slots == capacities.sound
                &&& r.music.base == r.sound.end() && r.music.slots == capacities.music
                &&& r.render_texture.base == r.music.end() && r.render_texture.slots
                    == capacities.render_texture
                &&& r.font.base == r.render_texture.end() && r.font.slots == capacities.font
                &&& forall|kind: ResourceKind| (#[trigger] r.range_of(kind)).stride == stride
            },
            ranges is None <==> stride == 0 || base + (capacities.camera + capacities.texture
                + capacities.sound + capacities.music + capacities.render_texture
                + capacities.font) * stride > usize::MAX,
    {
        if stride == 0 {
            return None;
        }
        proof {
            lemma_sum_times(
                capacities.camera as int,
                capacities.texture as int,
                capacities.sound as int,
                capacities.music as int,
                capacities.render_texture as int,
                capacities.font as int,
                stride as int,
            );
        }
        let camera = match AddressRange::new(base, stride, capacities.camera) {
            Some(range) => range,
            None => {
                return None;
            },
        };
        let texture = match AddressRange::new(camera.limit(), stride, capacities.texture) {
            Some(range) => range,
            None => {
                return None;
            },
        };
        let sound = match AddressRange::new(texture.limit(), stride, capacities.sound) {
            Some(range) => range,
            None => {
                return None;
            },
        };
        let music = match AddressRange::new(sound.limit(), stride, capacities.music) {
            Some(range) => range,
            None => {
                return None;
            },
        };
        let render_texture = match AddressRange::new(
            music.limit(),
            stride,
            capacities.render_texture,
        ) {
            Some(range) => range,
            None => {
                return None;
            },
        };
        let font = match AddressRange::new(render_texture.limit(), stride, capacities.font) {
            Some(range) => range,
            None => {
                return None;
            },
        };
        let ranges = HeapRanges { camera, texture, sound, music, render_texture, font };
        proof {
            assert(ranges.wf()) by {
                assert forall|kind: ResourceKind| (#[trigger] ranges.range_of(kind)).wf() by {}
            }
            assert(camera.base <= camera.end() <= texture.end() <= sound.end() <= music.end()
                <= render_texture.end() <= font.end());
            assert(ranges.disjoint()) by {
                assert forall|a: ResourceKind, b: ResourceKind| a != b implies (
                #[trigger] ranges.range_of(a)).disjoint(#[trigger] ranges.range_of(b)) by {}
            }
        }
        Some(ranges)
    }
}

/// A sum of six numbers times a stride is the sum of the six products, and
/// none of the products is negative.
proof fn lemma_sum_times(a: int, b: int, c: int, d: int, e: int, f: int, stride: int)
    requires
        a >= 0,
        b >= 0,
        c >= 0,
        d >= 0,
        e >= 0,
        f >= 0,
        stride >= 0,
    ensures
        (a + b + c + d + e + f) * stride == a * stride + b * stride + c * stride + d * stride + e
            * stride + f * stride,
        a * stride >= 0,
        b * stride >= 0,
        c * stride >= 0,
        d * stride >= 0,
        e * stride >= 0,
        f * stride >= 0,
{
    assert((a + b + c + d + e + f) * stride == a * stride + b * stride + c * stride + d * stride
        + e * stride + f * stride) by (nonlinear_arith);
    assert(a * stride >= 0 && b * stride >= 0 && c * stride >= 0) by (nonlinear_arith)
        requires
            a >= 0,
            b >= 0,
            c >= 0,
            stride >= 0,
    ;
    assert(d * stride >= 0 && e * stride >= 0 && f * stride >= 0) by (nonlinear_arith)
        requires
            d >= 0,
            e >= 0,
            f >= 0,
            stride >= 0,
    ;
}

/// Where the release of `addr` goes: to the first arena that owns the
/// address, and to the general allocator where none does.
pub fn roc_dealloc(ranges: &HeapRanges, addr: usize) -> (to: Deallocation)
    requires
        ranges.wf(),
    ensures
        to == ranges.spec_route(addr),
{
    match ranges.owner(addr) {
        Some(kind) => Deallocation::Heap(kind),
        None => Deallocation::General,
    }
}

/// With ranges that share no address, the order in which the arenas are
/// asked does not matter: an address goes to an arena exactly if the range
/// of that arena holds it, and an address of one arena never reaches another.
pub proof fn lemma_route_finds_the_owner(ranges: HeapRanges, addr: usize, kind: ResourceKind)
    requires
        ranges.disjoint(),
    ensures
        ranges.spec_owner(addr) == Some(kind) <==> ranges.range_of(kind).spec_contains(addr),
        ranges.spec_route(addr) == Deallocation::General <==> forall|other: ResourceKind|
            !(#[trigger] ranges.range_of(other)).spec_contains(addr),
{
    assert forall|a: ResourceKind, b: ResourceKind|
        a != b && ranges.range_of(a).spec_contains(addr) implies !ranges.range_of(b).spec_contains(
        addr,
    ) by {
        assert(ranges.range_of(a).disjoint(ranges.range_of(b)));
    }
    if ranges.spec_route(addr) == Deallocation::General {
        assert forall|other: ResourceKind| !(#[trigger] ranges.range_of(other)).spec_contains(
            addr,
        ) by {}
    }
    if forall|other: ResourceKind| !(#[trigger] ranges.range_of(other)).spec_contains(addr) {
        assert(!ranges.range_of(ResourceKind::Camera).spec_contains(addr));
        assert(!ranges.range_of(ResourceKind::Texture).spec_contains(addr));
        assert(!ranges.range_of(ResourceKind::Sound).spec_contains(addr));
        assert(!ranges.range_of(ResourceKind::Music).spec_contains(addr));
        assert(!ranges.range_of(ResourceKind::RenderTexture).spec_contains(addr));
        assert(!ranges.range_of(ResourceKind::Font).spec_contains(addr));
    }
    if ranges.range_of(kind).spec_contains(addr) {
        assert(ranges.spec_owner(addr) is Some);
        let found = ranges.spec_owner(addr).unwrap();
        assert(ranges.range_of(found).spec_contains(addr));
    }
}

/// The six arenas of a session, one for each kind of resource, with the
/// ranges of their addresses.
pub struct Heaps<C, T, S, M, R, F> {
    pub ranges: HeapRanges,
    pub cameras: ResourceHeap<C>,
    pub textures: ResourceHeap<T>,
    pub sounds: ResourceHeap<S>,
    pub music: MusicStreams<M>,
    pub render_textures: ResourceHeap<R>,
    pub fonts: ResourceHeap<F>,
}

/// What the release of an address did: what the arena that owns the address
/// made of it, or nothing, where no arena owns the address and it is the
/// general allocator's to free.
pub enum Release<C, T, S, M, R, F> {
    Camera(Released<C>),
    Texture(Released<T>),
    Sound(Released<S>),
    Music(Released<M>),
    RenderTexture(Released<R>),
    Font(Released<F>),
    General,
}

impl<C, T, S, M, R, F> Heaps<C, T, S, M, R, F> {
    /// Each arena is well formed and has the range that the ranges give its
    /// kind.
    pub open spec fn wf(&self) -> bool {
        &&& self.ranges.wf()
        &&& self.cameras.wf() && self.cameras.spec_range() == self.ranges.camera
        &&& self.textures.wf() && self.textures.spec_range() == self.ranges.texture
        &&& self.sounds.wf() && self.sounds.spec_range() == self.ranges.sound
        &&& self.music.wf() && self.music.spec_heap().spec_range() == self.ranges.music
        &&& self.render_textures.wf() && self.render_textures.spec_range()
            == self.ranges.render_texture
        &&& self.fonts.wf() && self.fonts.spec_range() == self.ranges.font
    }

    /// `after` has the ranges of `self`, and each arena of `after` but the
    /// one of the kind `changed` is the arena of `self` as it was.
    pub open spec fn kept_but(
        &self,
        after: &Heaps<C, T, S, M, R, F>,
        changed: Option<ResourceKind>,
    ) -> bool {
        &&& after.ranges == self.ranges
        &&& changed != Some(ResourceKind::Camera) ==> after.cameras == self.cameras
        &&& changed != Some(ResourceKind::Texture) ==> after.textures == self.textures
        &&& changed != Some(ResourceKind::Sound) ==> after.sounds == self.sounds
        &&& changed != Some(ResourceKind::Music) ==> after.music == self.music
        &&& changed != Some(ResourceKind::RenderTexture) ==> after.render_textures
            == self.render_textures
        &&& changed != Some(ResourceKind::Font) ==> after.fonts == self.fonts
    }

    /// Six empty arenas laid out one behind the other from `base`, with
    /// slots of `stride` addresses, unless a slot would be empty or the last
    /// arena would leave the address space.
    pub fn new(base: usize, stride: usize, capacities: HeapCapacities) -> (heaps: Option<
        Heaps<C, T, S, M, R, F>,
    >)
        ensures
            heaps is None <==> stride == 0 || base + (capacities.camera + capacities.texture
                + capacities.sound + capacities.music + capacities.render_texture
                + capacities.font) * stride > usize::MAX,
            heaps is Some ==> {
                let h = heaps.unwrap();
                &&& h.wf()
                &&& h.ranges.disjoint()
                &&& h.ranges.camera == (AddressRange { base, stride, slots: capacities.camera })
                &&& h.ranges.texture.slots == capacities.texture
                &&& h.ranges.sound.slots == capacities.sound
                &&& h.ranges.music.slots == capacities.music
                &&& h.ranges.render_texture.slots == capacities.render_texture
                &&& h.ranges.font.slots == capacities.font
                &&& h.cameras@.live() == 0
                &&& h.textures@.live() == 0
                &&& h.sounds@.live() == 0
                &&& h.music.spec_heap()@.live() == 0
                &&& h.music.registry().len() == 0
                &&& h.render_textures@.live() == 0
                &&& h.fonts@.live() == 0
            },
    {
        let ranges = match HeapRanges::laid_out(base, stride, capacities) {
            Some(ranges) => ranges,
            None => {
                return None;
            },
        };
        proof {
            assert(ranges.range_of(ResourceKind::Camera).wf());
            assert(ranges.range_of(ResourceKind::Texture).wf());
            assert(ranges.range_of(ResourceKind::Sound).wf());
            assert(ranges.range_of(ResourceKind::Music).wf());
            assert(ranges.range_of(ResourceKind::RenderTexture).wf());
            assert(ranges.range_of(ResourceKind::Font).wf());
        }
        let cameras = ResourceHeap::new(ranges.camera.base, ranges.camera.stride, ranges.camera.slots);
        let textures = ResourceHeap::new(
            ranges.texture.base,
            ranges.texture.stride,
            ranges.texture.slots,
        );
        let sounds = ResourceHeap::new(ranges.sound.base, ranges.sound.stride, ranges.sound.slots);
        let music = MusicStreams::new(ranges.music.base, ranges.music.stride, ranges.music.slots);
        let render_textures = ResourceHeap::new(
            ranges.render_texture.base,
            ranges.render_texture.stride,
            ranges.render_texture.slots,
        );
        let fonts = ResourceHeap::new(ranges.font.base, ranges.font.stride, ranges.font.slots);
        match (cameras, textures, sounds, music, render_textures, fonts) {
            (
                Some(cameras),
                Some(textures),
                Some(sounds),
                Some(music),
                Some(render_textures),
                Some(fonts),
            ) => {
                proof {
                    crate::heap::lemma_empty_is_wf::<C>(ranges.camera.slots as nat);
                    crate::heap::lemma_empty_is_wf::<T>(ranges.texture.slots as nat);
                    crate::heap::lemma_empty_is_wf::<S>(ranges.sound.slots as nat);
                    crate::heap::lemma_empty_is_wf::<M>(ranges.music.slots as nat);
                    crate::heap::lemma_empty_is_wf::<R>(ranges.render_texture.slots as nat);
                    crate::heap::lemma_empty_is_wf::<F>(ranges.font.slots as nat);
                }
                Some(Heaps { ranges, cameras, textures, sounds, music, render_textures, fonts })
            },
            _ => None,
        }
    }

    /// Gives back what the managed runtime has let go of. The address goes
    /// to the arena that owns it, which takes one reference from the
    /// resource; every other arena stays as it was. An address that no arena
    /// owns changes none of them.
    pub fn release(&mut self, addr: usize) -> (r: Release<C, T, S, M, R, F>)
        requires
            old(self).wf(),
        ensures
            final(self).wf(),
            old(self).kept_but(final(self), old(self).ranges.spec_owner(addr)),
            match old(self).ranges.spec_owner(addr) {
                None => r is General,
                Some(ResourceKind::Camera) => r is Camera && old(self).cameras.released(
                    addr,
                    &final(self).cameras,
                    r->Camera_0,
                ),
                Some(ResourceKind::Texture) => r is Texture && old(self).textures.released(
                    addr,
                    &final(self).textures,
                    r->Texture_0,
                ),
                Some(ResourceKind::Sound) => r is Sound && old(self).sounds.released(
                    addr,
                    &final(self).sounds,
                    r->Sound_0,
                ),
                Some(ResourceKind::Music) => r is Music && old(self).music.released(
                    addr,
                    &final(self).music,
                    r->Music_0,
                ),
                Some(ResourceKind::RenderTexture) => r is RenderTexture
                    && old(self).render_textures.released(
                    addr,
                    &final(self).render_textures,
                    r->RenderTexture_0,
                ),
                Some(ResourceKind::Font) => r is Font && old(self).fonts.released(
                    addr,
                    &final(self).fonts,
                    r->Font_0,
                ),
            },
    {
        match roc_dealloc(&self.ranges, addr) {
            Deallocation::Heap(ResourceKind::Camera) => Release::Camera(self.cameras.release(addr)),
            Deallocation::Heap(ResourceKind::Texture) => Release::Texture(
                self.textures.release(addr),
            ),
            Deallocation::Heap(ResourceKind::Sound) => Release::Sound(self.sounds.release(addr)),
            Deallocation::Heap(ResourceKind::Music) => Release::Music(self.music.release(addr)),
            Deallocation::Heap(ResourceKind::RenderTexture) => Release::RenderTexture(
                self.render_textures.release(addr),
            ),
            Deallocation::Heap(ResourceKind::Font) => Release::Font(self.fonts.release(addr)),
            Deallocation::General => Release::General,
        }
    }
}

/// With arenas that share no address, a live handle of an arena is released
/// in that arena: the release of the handle of a live texture goes to the
/// arena of textures, and likewise for each kind.
pub proof fn lemma_live_handle_goes_home<C, T, S, M, R, F>(
    heaps: &Heaps<C, T, S, M, R, F>,
    addr: usize,
)
    requires
        heaps.wf(),
        heaps.ranges.disjoint(),
    ensures
        heaps.cameras.live_index(addr) is Some ==> heaps.ranges.spec_owner(addr) == Some(
            ResourceKind::Camera,
        ),
        heaps.textures.live_index(addr) is Some ==> heaps.ranges.spec_owner(addr) == Some(
            ResourceKind::Texture,
        ),
        heaps.sounds.live_index(addr) is Some ==> heaps.ranges.spec_owner(addr) == Some(
            ResourceKind::Sound,
        ),
        heaps.music.spec_heap().live_index(addr) is Some ==> heaps.ranges.spec_owner(addr) == Some(
            ResourceKind::Music,
        ),
        heaps.render_textures.live_index(addr) is Some ==> heaps.ranges.spec_owner(addr) == Some(
            ResourceKind::RenderTexture,
        ),
        heaps.fonts.live_index(addr) is Some ==> heaps.ranges.spec_owner(addr) == Some(
            ResourceKind::Font,
        ),
{
    lemma_route_finds_the_owner(heaps.ranges, addr, ResourceKind::Camera);
    lemma_route_finds_the_owner(heaps.ranges, addr, ResourceKind::Texture);
    lemma_route_finds_the_owner(heaps.ranges, addr, ResourceKind::Sound);
    lemma_route_finds_the_owner(heaps.ranges, addr, ResourceKind::Music);
    lemma_route_finds_the_owner(heaps.ranges, addr, ResourceKind::RenderTexture);
    lemma_route_finds_the_owner(heaps.ranges, addr, ResourceKind::Font);
}

} // verus!
