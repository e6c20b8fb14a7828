//! Package-manager values that cross the syscall boundary: retained ASCII
//! text, launcher-icon evidence, stable failure names and the per-owner
//! request sequence rule.
use vstd::prelude::*;
use vstd::slice::slice_subrange;

verus! {

/// Fixed ASCII retained in a `Copy` boot snapshot without allocation.
#[derive(Clone, Copy, Debug, Eq, PartialEq)]
pub struct FixedText<const N: usize> {
    length: u16,
    bytes: [u8; N],
}

/// Every byte of the sequence is seven-bit ASCII.
pub open spec fn ascii_bytes(bytes: Seq<u8>) -> bool {
    forall|i: int| 0 <= i < bytes.len() ==> #[trigger] bytes[i] < 128
}

/// The one byte of each ASCII character.
pub open spec fn ascii_encoding(text: Seq<char>) -> Seq<u8> {
    Seq::new(text.len(), |k: int| text[k] as u8)
}

/// The character of each ASCII byte.
pub open spec fn ascii_decoding(bytes: Seq<u8>) -> Seq<char> {
    Seq::new(bytes.len(), |k: int| bytes[k] as char)
}

impl<const N: usize> View for FixedText<N> {
    type V = Seq<u8>;

    /// The retained text, as bytes.
    closed spec fn view(&self) -> Seq<u8> {
        self.bytes@.subrange(0, self.length as int)
    }
}

impl<const N: usize> FixedText<N> {
    #[verifier::type_invariant]
    closed spec fn retained_ascii(self) -> bool {
        &&& self.length <= N
        &&& ascii_bytes(self.bytes@.subrange(0, self.length as int))
        &&& forall|i: int| self.length <= i < N ==> #[trigger] self.bytes@[i] == 0
    }

    /// Copies `value` when it is ASCII and at most `N` bytes long.
    pub fn try_from_ascii(value: &str) -> (text: Option<Self>)
        requires
            N <= u16::MAX,
        ensures
            match text {
                Some(t) => vstd::string::is_ascii(value) && value@.len() <= N
                    && t@ == ascii_encoding(value@),
                None => !vstd::string::is_ascii(value) || value@.len() > N,
            },
    {
        if value.len() > N || !value.is_ascii() {
            return None;
        }
        proof {
            vstd::string::is_ascii_spec_bytes(value);
        }
        let source = value.as_bytes();
        assert(source@ =~= ascii_encoding(value@));
        let count = source.len();
        let mut bytes = [0u8; N];
        let mut i: usize = 0;
        while i < count
            invariant
                count == source@.len(),
                count <= N,
                i <= count,
                bytes@.len() == N,
                source@ == ascii_encoding(value@),
                vstd::string::is_ascii(value),
                forall|k: int| 0 <= k < i ==> bytes@[k] == source@[k],
                forall|k: int| i <= k < N ==> bytes@[k] == 0,
            decreases count - i,
        {
            bytes[i] = source[i];
            i = i + 1;
        }
        proof {
            assert forall|k: int| 0 <= k < count implies #[trigger] source@[k] < 128 by {
                let c = value@[k];
                assert('\0' <= c <= '\u{7f}');
                assert((c as u32) < 128);
                assert(source@[k] == c as u8);
            }
        }
        let length = count as u16;
        assert(bytes@.subrange(0, length as int) =~= source@);
        assert(ascii_bytes(bytes@.subrange(0, length as int)));
        let text = FixedText { length, bytes };
        Some(text)
    }

    pub fn len(&self) -> (n: usize)
        ensures
            n == self@.len(),
            n <= N,
    {
        proof {
            use_type_invariant(self);
        }
        self.length as usize
    }

    pub fn is_empty(&self) -> (empty: bool)
        ensures
            empty == (self@.len() == 0),
    {
        proof {
            use_type_invariant(self);
        }
        self.length == 0
    }

    pub fn as_bytes(&self) -> (bytes: &[u8])
        ensures
            bytes@ == self@,
            ascii_bytes(bytes@),
    {
        proof {
            use_type_invariant(self);
        }
        slice_subrange(self.bytes.as_slice(), 0, self.length as usize)
    }

    pub fn as_str(&self) -> (text: &str)
        ensures
            text@ == ascii_decoding(self@),
    {
        proof {
            use_type_invariant(self);
        }
        ascii_str(self.as_bytes())
    }
}

/// Views seven-bit ASCII bytes as a string slice with `core::str::from_utf8`.
/// ASCII is valid UTF-8, so the conversion succeeds and the string holds
/// exactly the given bytes.
#[verifier::external_body]
fn ascii_str(bytes: &[u8]) -> (text: &str)
    requires
        ascii_bytes(bytes@),
    ensures
        text@ == ascii_decoding(bytes@),
{
    match core::str::from_utf8(bytes) {
        Ok(text) => text,
        Err(_) => "",
    }
}

/// Most distinct colors a retained launcher icon holds.
pub const LAUNCHER_ICON_PALETTE_CAPACITY: usize = 16;

/// What compaction reads of one decoded signed-APK launcher icon: its
/// resource identity, PNG checksum, ARGB pixels and source geometry.
pub struct LauncherIconSource {
    pub resource_id: u32,
    pub png_crc32: u32,
    pub pixels: Vec<u32>,
    pub source_width: u16,
    pub source_height: u16,
    pub source_density_dpi: u16,
    pub color_quantized: bool,
}

/// Why a launcher icon cannot be retained.
#[derive(Clone, Copy, Debug, Eq, PartialEq, Structural)]
pub enum LauncherIconError {
    /// The icon has more distinct colors than the palette holds.
    Palette,
}

/// The distinct values of `pixels`, in order of first appearance.
pub open spec fn palette_of(pixels: Seq<u32>) -> Seq<u32>
    decreases pixels.len(),
{
    if pixels.len() == 0 {
        Seq::empty()
    } else {
        let earlier = palette_of(pixels.drop_last());
        if earlier.contains(pixels.last()) {
            earlier
        } else {
            earlier.push(pixels.last())
        }
    }
}

/// The four-bit palette index stored for pixel `index`: the high half of its
/// byte for an even pixel, the low half for an odd one.
pub open spec fn packed_index(indices: Seq<u8>, index: int) -> u8 {
    let packed = indices[index / 2];
    if index % 2 == 0 {
        packed >> 4u8
    } else {
        packed & 0x0fu8
    }
}

/// The ARGB value of pixel `index`, when it lies in the icon and its index
/// names a palette entry.
pub open spec fn spec_pixel(palette: Seq<u32>, palette_len: u8, indices: Seq<u8>, index: int) -> Option<u32> {
    if index < 0 || index >= 2 * indices.len() {
        None
    } else if packed_index(indices, index) < palette_len {
        Some(palette[packed_index(indices, index) as int])
    } else {
        None
    }
}

/// Stack-safe retained form of one exact signed APK launcher icon: its
/// resource identity, PNG checksum, a palette of at most sixteen colors,
/// `2 * PACKED` four-bit palette indices packed two to a byte, and the source
/// geometry.
#[derive(Clone, Copy, Debug, Eq, PartialEq)]
pub struct InstalledLauncherIcon<const PACKED: usize> {
    resource_id: u32,
    png_crc32: u32,
    palette: [u32; 16],
    palette_len: u8,
    indices: [u8; PACKED],
    source_width: u16,
    source_height: u16,
    source_density_dpi: u16,
    color_quantized: bool,
}

/// The values an installed launcher icon carries.
pub struct LauncherIconModel {
    pub resource_id: u32,
    pub png_crc32: u32,
    pub palette: Seq<u32>,
    pub palette_len: u8,
    pub indices: Seq<u8>,
    pub source_width: u16,
    pub source_height: u16,
    pub source_density_dpi: u16,
    pub color_quantized: bool,
}

impl LauncherIconModel {
    /// The ARGB value of pixel `index`, if any.
    pub open spec fn pixel(self, index: int) -> Option<u32> {
        spec_pixel(self.palette, self.palette_len, self.indices, index)
    }
}

impl<const PACKED: usize> View for InstalledLauncherIcon<PACKED> {
    type V = LauncherIconModel;

    closed spec fn view(&self) -> LauncherIconModel {
        LauncherIconModel {
            resource_id: self.resource_id,
            png_crc32: self.png_crc32,
            palette: self.palette@,
            palette_len: self.palette_len,
            indices: self.indices@,
            source_width: self.source_width,
            source_height: self.source_height,
            source_density_dpi: self.source_density_dpi,
            color_quantized: self.color_quantized,
        }
    }
}

/// A byte that holds `high` in its high half reads it back and has a free low
/// half.
proof fn lemma_high_nibble(high: u8)
    requires
        high < 16,
    ensures
        ((high << 4u8) as u8) >> 4u8 == high,
        ((high << 4u8) as u8) & 0x0fu8 == 0,
{
    assert(((high << 4u8) as u8) >> 4u8 == high && ((high << 4u8) as u8) & 0x0fu8 == 0)
        by (bit_vector)
        requires
            high < 16,
    ;
}

/// The palette of a prefix is a prefix of the palette of the whole.
proof fn lemma_palette_prefix(pixels: Seq<u32>, count: int)
    requires
        0 <= count <= pixels.len(),
    ensures
        palette_of(pixels.take(count)).len() <= palette_of(pixels).len(),
        palette_of(pixels).take(palette_of(pixels.take(count)).len() as int) == palette_of(
            pixels.take(count),
        ),
    decreases pixels.len() - count,
{
    if count < pixels.len() {
        lemma_palette_prefix(pixels, count + 1);
        assert(pixels.take(count + 1).drop_last() =~= pixels.take(count));
        let shorter = palette_of(pixels.take(count));
        let longer = palette_of(pixels.take(count + 1));
        assert(longer.take(shorter.len() as int) =~= shorter);
        let whole = palette_of(pixels);
        assert(whole.take(shorter.len() as int) =~= longer.take(longer.len() as int).take(
            shorter.len() as int,
        ));
    } else {
        assert(pixels.take(count) =~= pixels);
    }
}

/// The palette of an icon holds each of its colors exactly once, and only its
/// colors.
pub proof fn lemma_palette_of_is_exact(pixels: Seq<u32>)
    ensures
        palette_of(pixels).no_duplicates(),
        forall|i: int| 0 <= i < pixels.len() ==> palette_of(pixels).contains(#[trigger] pixels[i]),
        forall|j: int| 0 <= j < palette_of(pixels).len() ==> pixels.contains(#[trigger] palette_of(pixels)[j]),
    decreases pixels.len(),
{
    if pixels.len() > 0 {
        let earlier = pixels.drop_last();
        lemma_palette_of_is_exact(earlier);
        assert forall|i: int| 0 <= i < pixels.len() implies palette_of(pixels).contains(#[trigger] pixels[i]) by {
            if i < pixels.len() - 1 {
                assert(earlier[i] == pixels[i]);
                let k = choose|k: int| 0 <= k < palette_of(earlier).len() && palette_of(earlier)[k] == earlier[i];
                assert(palette_of(pixels)[k] == pixels[i]);
            } else if !palette_of(earlier).contains(pixels.last()) {
                assert(palette_of(pixels)[palette_of(earlier).len() as int] == pixels[i]);
            }
        }
        assert forall|j: int| 0 <= j < palette_of(pixels).len() implies pixels.contains(#[trigger] palette_of(pixels)[j]) by {
            if j < palette_of(earlier).len() {
                let k = choose|k: int| 0 <= k < earlier.len() && earlier[k] == palette_of(earlier)[j];
                assert(pixels[k] == earlier[k]);
            } else {
                assert(pixels[pixels.len() - 1] == pixels.last());
            }
        }
    }
}

/// Compacts a decoded launcher icon into a palette of at most sixteen colors,
/// in order of first appearance, and one four-bit palette index per pixel.
/// An icon with more colors is refused; no icon gives no retained icon.
pub fn compact_launcher_icon<const PACKED: usize>(icon: Option<LauncherIconSource>) -> (result: Result<
    Option<InstalledLauncherIcon<PACKED>>,
    LauncherIconError,
>)
    requires
        icon is Some ==> icon->Some_0.pixels@.len() <= 2 * PACKED,
    ensures
        match icon {
            None => result == Ok::<Option<InstalledLauncherIcon<PACKED>>, LauncherIconError>(None),
            Some(source) => {
                let palette = palette_of(source.pixels@);
                if palette.len() > LAUNCHER_ICON_PALETTE_CAPACITY {
                    result == Err::<Option<InstalledLauncherIcon<PACKED>>, LauncherIconError>(
                        LauncherIconError::Palette,
                    )
                } else {
                    &&& result is Ok
                    &&& result->Ok_0 is Some
                    &&& {
                        let out = result->Ok_0->Some_0@;
                        &&& out.resource_id == source.resource_id
                        &&& out.png_crc32 == source.png_crc32
                        &&& out.source_width == source.source_width
                        &&& out.source_height == source.source_height
                        &&& out.source_density_dpi == source.source_density_dpi
                        &&& out.color_quantized == source.color_quantized
                        &&& out.palette_len == palette.len()
                        &&& out.palette.take(palette.len() as int) == palette
                        &&& forall|j: int| palette.len() <= j < 16 ==> out.palette[j] == 0
                        &&& forall|i: int| 0 <= i < source.pixels@.len() ==> #[trigger] out.pixel(i)
                            == Some(source.pixels@[i])
                        &&& forall|i: int| source.pixels@.len() <= i < 2 * PACKED ==> #[trigger] out.pixel(i)
                            == (if palette.len() > 0 { Some(palette[0]) } else { None::<u32> })
                    }
                }
            },
        },
{
    let source = match icon {
        None => return Ok(None),
        Some(source) => source,
    };
    let pixels = &source.pixels;
    let count = pixels.len();
    let mut palette = [0u32; 16];
    let mut palette_len: usize = 0;
    let mut indices = [0u8; PACKED];
    let mut index: usize = 0;
    while index < count
        invariant
            count == pixels@.len(),
            count <= 2 * PACKED,
            icon == Some(source),
            pixels == &source.pixels,
            index <= count,
            palette@.len() == 16,
            indices@.len() == PACKED,
            palette_len <= 16,
            palette_len == palette_of(pixels@.take(index as int)).len(),
            palette@.take(palette_len as int) == palette_of(pixels@.take(index as int)),
            forall|j: int| palette_len <= j < 16 ==> palette@[j] == 0,
            forall|j: int| 0 <= j < index ==> #[trigger] spec_pixel(palette@, palette_len as u8, indices@, j) == Some(pixels@[j]),
            index % 2 == 1 ==> indices@[(index / 2) as int] & 0x0fu8 == 0,
            forall|k: int| (index + 1) / 2 <= k < PACKED ==> indices@[k] == 0,
        decreases count - index,
    {
        let pixel = pixels[index];
        let ghost old_palette = palette@;
        let ghost old_len = palette_len;
        let ghost before = pixels@.take(index as int);
        let ghost after = pixels@.take(index + 1);
        proof {
            assert(after.drop_last() =~= before);
            assert(after.last() == pixel);
        }
        let mut position: usize = 0;
        while position < palette_len && palette[position] != pixel
            invariant
                palette_len <= 16,
                palette@.len() == 16,
                position <= palette_len,
                forall|j: int| 0 <= j < position ==> palette@[j] != pixel,
            decreases palette_len - position,
        {
            position += 1;
        }
        let palette_index: usize = if position < palette_len {
            proof {
                assert(palette@.take(palette_len as int)[position as int] == pixel);
                assert(before.len() == index);
            }
            position
        } else {
            proof {
                assert forall|j: int| 0 <= j < palette_len implies palette_of(before)[j] != pixel by {
                    assert(palette@.take(palette_len as int)[j] == palette@[j]);
                }
                assert(!palette_of(before).contains(pixel));
            }
            if palette_len == 16 {
                proof {
                    assert(palette_of(after).len() == 17);
                    lemma_palette_prefix(pixels@, index + 1);
                }
                return Err(LauncherIconError::Palette);
            }
            palette[palette_len] = pixel;
            palette_len += 1;
            proof {
                assert(palette@.take(palette_len as int) =~= palette_of(after));
            }
            palette_len - 1
        };
        let ghost old_indices = indices@;
        let slot = index / 2;
        proof {
            lemma_high_nibble(palette_index as u8);
        }
        if index % 2 == 0 {
            indices[slot] = (palette_index as u8) << 4u8;
        } else {
            let old_byte = indices[slot];
            let low = palette_index as u8;
            proof {
                assert((old_byte | low) >> 4u8 == old_byte >> 4u8 && (old_byte | low) & 0x0fu8 == low)
                    by (bit_vector)
                    requires
                        old_byte & 0x0fu8 == 0,
                        low < 16,
                ;
            }
            indices[slot] = old_byte | low;
        }
        proof {
            let new_indices = indices@;
            assert(palette@.take(palette_len as int) == palette_of(after));
            assert(packed_index(new_indices, index as int) == palette_index as u8);
            assert forall|j: int| 0 <= j < index + 1 implies #[trigger] spec_pixel(palette@, palette_len as u8, indices@, j) == Some(pixels@[j]) by {
                if j < index {
                    assert(spec_pixel(old_palette, old_len as u8, old_indices, j) == Some(pixels@[j]));
                    if j / 2 != slot {
                        assert(new_indices[j / 2] == old_indices[j / 2]);
                    }
                    assert(packed_index(new_indices, j) == packed_index(old_indices, j));
                    let p = packed_index(old_indices, j);
                    assert(p < old_len);
                    assert(palette@[p as int] == old_palette[p as int]);
                } else {
                    assert(palette@[palette_index as int] == pixel);
                }
            }
        }
        index += 1;
    }
    proof {
        assert(pixels@.take(count as int) =~= pixels@);
        assert forall|i: int| count <= i < 2 * PACKED implies #[trigger] spec_pixel(
            palette@,
            palette_len as u8,
            indices@,
            i,
        ) == (if palette_len > 0 { Some(palette@[0]) } else { None::<u32> }) by {
            let byte = indices@[i / 2];
            if i / 2 >= (count + 1) / 2 {
                assert(byte == 0);
                assert(byte >> 4u8 == 0 && byte & 0x0fu8 == 0) by (bit_vector)
                    requires
                        byte == 0,
                ;
            } else {
                assert(i == count && count % 2 == 1);
            }
            assert(packed_index(indices@, i) == 0);
            if palette_len > 0 {
                assert(palette@[0] == palette@.take(palette_len as int)[0]);
            }
        }
    }
    Ok(
        Some(
            InstalledLauncherIcon {
                resource_id: source.resource_id,
                png_crc32: source.png_crc32,
                palette,
                palette_len: palette_len as u8,
                indices,
                source_width: source.source_width,
                source_height: source.source_height,
                source_density_dpi: source.source_density_dpi,
                color_quantized: source.color_quantized,
            },
        ),
    )
}

impl<const PACKED: usize> InstalledLauncherIcon<PACKED> {
    /// The ARGB value of pixel `index`, or `None` outside the icon or for an
    /// index that names no palette entry.
    pub fn pixel(self, index: usize) -> (value: Option<u32>)
        ensures
            value == self@.pixel(index as int),
    {
        if index / 2 >= PACKED {
            return None;
        }
        let packed = self.indices[index / 2];
        let palette_index = if index % 2 == 0 {
            packed >> 4u8
        } else {
            packed & 0x0fu8
        };
        proof {
            assert(palette_index < 16) by (bit_vector)
                requires
                    palette_index == packed >> 4u8 || palette_index == packed & 0x0fu8,
            ;
        }
        if palette_index < self.palette_len {
            Some(self.palette[palette_index as usize])
        } else {
            None
        }
    }

    pub fn resource_id(self) -> (value: u32)
        ensures
            value == self@.resource_id,
    {
        self.resource_id
    }

    pub fn png_crc32(self) -> (value: u32)
        ensures
            value == self@.png_crc32,
    {
        self.png_crc32
    }

    pub fn source_width(self) -> (value: u16)
        ensures
            value == self@.source_width,
    {
        self.source_width
    }

    pub fn source_height(self) -> (value: u16)
        ensures
            value == self@.source_height,
    {
        self.source_height
    }

    pub fn source_density_dpi(self) -> (value: u16)
        ensures
            value == self@.source_density_dpi,
    {
        self.source_density_dpi
    }

    pub fn color_quantized(self) -> (value: bool)
        ensures
            value == self@.color_quantized,
    {
        self.color_quantized
    }
}

/// Exact synchronous I/O completed by the package-store boot transaction.
#[derive(Clone, Copy, Debug, Default, Eq, PartialEq, Structural)]
pub struct PackageIoEvidence {
    pub reads: u64,
    pub writes: u64,
    pub flushes: u64,
}

/// Stable failure classes exposed to the syscall boundary.
#[derive(Clone, Copy, Debug, Eq, PartialEq, Structural)]
pub enum RelaunchError {
    /// The caller generation or requested installed identity is no longer
    /// current.
    Stale,
    /// Boot or fresh recovery exposes no installed package.
    NotInstalled,
    /// The request sequence is zero, replayed, or has a gap.
    Sequence,
    /// The sole slot belongs to a different exact request.
    Busy,
    /// Durable bytes or package metadata failed complete revalidation.
    Corrupt,
    /// The durable package is outside the supported Resources-1 profile.
    Unsupported,
    /// The block path cannot safely continue before device recovery/reset.
    RequiresReset,
    /// A verified immutable package image could not be allocated.
    OutOfMemory,
}

impl RelaunchError {
    /// The fixed text that describes this error.
    pub open spec fn message(self) -> Seq<char> {
        match self {
            Self::Stale => "stale"@,
            Self::NotInstalled => "not-installed"@,
            Self::Sequence => "sequence"@,
            Self::Busy => "busy"@,
            Self::Corrupt => "corrupt"@,
            Self::Unsupported => "unsupported"@,
            Self::RequiresReset => "requires-reset"@,
            Self::OutOfMemory => "out-of-memory"@,
        }
    }

    pub fn as_str(self) -> (text: &'static str)
        ensures
            text@ == self.message(),
    {
        match self {
            Self::Stale => "stale",
            Self::NotInstalled => "not-installed",
            Self::Sequence => "sequence",
            Self::Busy => "busy",
            Self::Corrupt => "corrupt",
            Self::Unsupported => "unsupported",
            Self::RequiresReset => "requires-reset",
            Self::OutOfMemory => "out-of-memory",
        }
    }
}

#[derive(Clone, Copy, Debug, Eq, PartialEq, Structural)]
pub struct RuntimeUninstallCompletion {
    pub request_sequence: u64,
    pub operation_id: u64,
    pub last_generation: u64,
    pub removal_generation: u64,
    pub io: PackageIoEvidence,
}

#[derive(Clone, Copy, Debug, Eq, PartialEq, Structural)]
pub enum RuntimeUninstallError {
    Stale,
    NotInstalled,
    Sequence,
    Busy,
    Corrupt,
    Unsupported,
    RequiresReset,
}

impl RuntimeUninstallError {
    /// The fixed text that describes this error.
    pub open spec fn message(self) -> Seq<char> {
        match self {
            Self::Stale => "stale"@,
            Self::NotInstalled => "not-installed"@,
            Self::Sequence => "sequence"@,
            Self::Busy => "busy"@,
            Self::Corrupt => "corrupt"@,
            Self::Unsupported => "unsupported"@,
            Self::RequiresReset => "requires-reset"@,
        }
    }

    pub fn as_str(self) -> (text: &'static str)
        ensures
            text@ == self.message(),
    {
        match self {
            Self::Stale => "stale",
            Self::NotInstalled => "not-installed",
            Self::Sequence => "sequence",
            Self::Busy => "busy",
            Self::Corrupt => "corrupt",
            Self::Unsupported => "unsupported",
            Self::RequiresReset => "requires-reset",
        }
    }
}

/// Result of polling the single runtime-uninstall slot.
pub enum RuntimeUninstallPoll {
    Pending,
    Ready(Result<RuntimeUninstallCompletion, RuntimeUninstallError>),
}

#[derive(Clone, Copy, Debug, Eq, PartialEq, Structural)]
pub enum RuntimeInstallError {
    Stale,
    NoCandidate,
    Sequence,
    Busy,
    Corrupt,
    Unsupported,
    RequiresReset,
}

impl RuntimeInstallError {
    /// The fixed text that describes this error.
    pub open spec fn message(self) -> Seq<char> {
        match self {
            Self::Stale => "stale"@,
            Self::NoCandidate => "no-candidate"@,
            Self::Sequence => "sequence"@,
            Self::Busy => "busy"@,
            Self::Corrupt => "corrupt"@,
            Self::Unsupported => "unsupported"@,
            Self::RequiresReset => "requires-reset"@,
        }
    }

    pub fn as_str(self) -> (text: &'static str)
        ensures
            text@ == self.message(),
    {
        match self {
            Self::Stale => "stale",
            Self::NoCandidate => "no-candidate",
            Self::Sequence => "sequence",
            Self::Busy => "busy",
            Self::Corrupt => "corrupt",
            Self::Unsupported => "unsupported",
            Self::RequiresReset => "requires-reset",
        }
    }
}

/// The restart image-grant slot has been consumed by its one replacement.
pub const RESTART_IMAGE_GRANT_CONSUMED: u8 = 3;

#[derive(Clone, Copy, Debug, Eq, PartialEq, Structural)]
pub struct AndroidPackageRestartImageGrantSnapshot {
    pub state: u8,
    pub launcher_owner: u64,
    pub old_execution_owner: u64,
    pub new_execution_owner: u64,
    pub compatible_session_id: u64,
    pub package_generation: u64,
    pub escrows: u64,
    pub reissues: u64,
    pub replacement_claims: u64,
    pub image_held: bool,
    pub ordinary_grant_pending: bool,
}

impl AndroidPackageRestartImageGrantSnapshot {
    /// One escrow, one reissue and one replacement claim completed between
    /// two distinct nonzero execution owners, and nothing is still held.
    pub open spec fn spec_complete(self) -> bool {
        &&& self.state == RESTART_IMAGE_GRANT_CONSUMED
        &&& self.launcher_owner != 0
        &&& self.old_execution_owner != 0
        &&& self.new_execution_owner != 0
        &&& self.old_execution_owner != self.new_execution_owner
        &&& self.compatible_session_id != 0
        &&& self.package_generation != 0
        &&& self.escrows == 1
        &&& self.reissues == 1
        &&& self.replacement_claims == 1
        &&& !self.image_held
        &&& !self.ordinary_grant_pending
    }

    pub fn complete(&self) -> (done: bool)
        ensures
            done == self.spec_complete(),
    {
        self.state == RESTART_IMAGE_GRANT_CONSUMED && self.launcher_owner != 0
            && self.old_execution_owner != 0 && self.new_execution_owner != 0
            && self.old_execution_owner != self.new_execution_owner
            && self.compatible_session_id != 0 && self.package_generation != 0
            && self.escrows == 1 && self.reissues == 1 && self.replacement_claims == 1
            && !self.image_held && !self.ordinary_grant_pending
    }
}

#[derive(Clone, Copy, Debug, Eq, PartialEq, Structural)]
pub enum AndroidPackageImageGrantError {
    Missing,
    Mismatch,
    StaleOwner,
    Busy,
}

/// Exact package-store decision made by the one trusted boot pass.
#[derive(Clone, Copy, Debug, Eq, PartialEq, Structural)]
pub enum PackageBootOperation {
    /// No source and no committed package were present.
    EmptyRecovery,
    /// A source created generation one on an empty volume.
    Install,
    /// A same-package, same-signer, higher-version source replaced the
    /// previous committed generation.
    Update,
    /// A source reinstalled the retained package identity after removal.
    Reinstall,
    /// The exact already-committed source transaction was supplied again.
    SourceReplay,
    /// No source was supplied and the committed package was recovered.
    Recovery,
    /// A canonical request revoked the installed package and launcher entry.
    Uninstall,
    /// A complete canonical uninstall request was replayed without mutation.
    UninstallReplay,
    /// An interrupted one-copy tombstone was repaired to the required mirror.
    UninstallRepair,
    /// No input was supplied and a durable removal tombstone was recovered.
    RemovedRecovery,
    /// A source was admitted for a user-confirmed first installation
    /// without mutating the package volume during boot.
    InstallCandidate,
    /// A same-package, same-signer higher version was admitted without
    /// mutating the current installed generation during boot.
    UpdateCandidate,
    /// A retained-identity reinstall after removal was admitted without
    /// mutating the package volume during boot.
    ReinstallCandidate,
}

impl PackageBootOperation {
    /// The fixed text that names this decision.
    pub open spec fn message(self) -> Seq<char> {
        match self {
            Self::EmptyRecovery => "empty-recovery"@,
            Self::Install => "install"@,
            Self::Update => "update"@,
            Self::Reinstall => "reinstall"@,
            Self::SourceReplay => "source-replay"@,
            Self::Recovery => "recovery"@,
            Self::Uninstall => "uninstall"@,
            Self::UninstallReplay => "uninstall-replay"@,
            Self::UninstallRepair => "uninstall-repair"@,
            Self::RemovedRecovery => "removed-recovery"@,
            Self::InstallCandidate => "install-candidate"@,
            Self::UpdateCandidate => "update-candidate"@,
            Self::ReinstallCandidate => "reinstall-candidate"@,
        }
    }

    pub fn as_str(self) -> (text: &'static str)
        ensures
            text@ == self.message(),
    {
        match self {
            Self::EmptyRecovery => "empty-recovery",
            Self::Install => "install",
            Self::Update => "update",
            Self::Reinstall => "reinstall",
            Self::SourceReplay => "source-replay",
            Self::Recovery => "recovery",
            Self::Uninstall => "uninstall",
            Self::UninstallReplay => "uninstall-replay",
            Self::UninstallRepair => "uninstall-repair",
            Self::RemovedRecovery => "removed-recovery",
            Self::InstallCandidate => "install-candidate",
            Self::UpdateCandidate => "update-candidate",
            Self::ReinstallCandidate => "reinstall-candidate",
        }
    }
}

#[derive(Clone, Copy, Debug, Eq, PartialEq, Structural)]
pub enum GptPolicyError {
    DeviceSize,
    PartitionType,
    PartitionUniqueGuid,
    PartitionIndex,
    PartitionName,
    PartitionBounds,
    PartitionAttributes,
}

impl GptPolicyError {
    /// The fixed text that describes this error.
    pub open spec fn message(self) -> Seq<char> {
        match self {
            Self::DeviceSize => "installed-package GPT has the wrong device size"@,
            Self::PartitionType => "installed-package GPT type GUID is invalid"@,
            Self::PartitionUniqueGuid => "installed-package GPT unique GUID is invalid"@,
            Self::PartitionIndex => "installed-package GPT entry index is invalid"@,
            Self::PartitionName => "installed-package GPT name is invalid"@,
            Self::PartitionBounds => "installed-package GPT bounds are invalid"@,
            Self::PartitionAttributes => "installed-package GPT attributes are unsupported"@,
        }
    }

    pub fn as_str(self) -> (text: &'static str)
        ensures
            text@ == self.message(),
    {
        match self {
            Self::DeviceSize => "installed-package GPT has the wrong device size",
            Self::PartitionType => "installed-package GPT type GUID is invalid",
            Self::PartitionUniqueGuid => "installed-package GPT unique GUID is invalid",
            Self::PartitionIndex => "installed-package GPT entry index is invalid",
            Self::PartitionName => "installed-package GPT name is invalid",
            Self::PartitionBounds => "installed-package GPT bounds are invalid",
            Self::PartitionAttributes => "installed-package GPT attributes are unsupported",
        }
    }
}

#[derive(Clone, Copy, Debug, Eq, PartialEq, Structural)]
pub enum AndroidPackageRestartImageGrantError {
    Missing,
    Mismatch,
    StaleOwner,
    AlreadyIssued,
}

/// What the package source transport observed at boot.
#[derive(Clone, Copy, Debug, Eq, PartialEq)]
pub struct PackageSourceEvidence {
    pub present: bool,
    pub length: u32,
    pub sha256: [u8; 32],
    pub selector: u16,
    pub uninstall_request_present: bool,
    pub uninstall_request_length: u32,
    pub uninstall_request_sha256: [u8; 32],
    pub uninstall_request_selector: u16,
    pub directory_files: u32,
    pub dma_operations: u32,
}

/// A request `sequence` from `owner` is admitted against the ledger that last
/// recorded `ledger_owner` and `last_sequence`: a new owner starts at one, and
/// the recorded owner continues at exactly the next sequence. Zero is never an
/// owner or a sequence.
pub open spec fn sequence_admitted(owner: u64, sequence: u64, ledger_owner: u64, last_sequence: u64) -> bool {
    &&& owner != 0
    &&& sequence != 0
    &&& if ledger_owner != owner {
        sequence == 1
    } else {
        sequence == last_sequence + 1
    }
}

fn sequence_is_next(owner: u64, sequence: u64, ledger_owner: u64, last_sequence: u64) -> (admitted: bool)
    ensures
        admitted == sequence_admitted(owner, sequence, ledger_owner, last_sequence),
{
    if owner == 0 || sequence == 0 {
        return false;
    }
    if ledger_owner != owner {
        return sequence == 1;
    }
    last_sequence.checked_add(1) == Some(sequence)
}

/// Admits the next durable-relaunch request against the relaunch ledger.
pub fn next_relaunch_sequence(owner: u64, sequence: u64, ledger_owner: u64, last_sequence: u64) -> (result: Result<(), RelaunchError>)
    ensures
        result is Ok <==> sequence_admitted(owner, sequence, ledger_owner, last_sequence),
        result is Err ==> result == Err::<(), RelaunchError>(RelaunchError::Sequence),
{
    if sequence_is_next(owner, sequence, ledger_owner, last_sequence) {
        Ok(())
    } else {
        Err(RelaunchError::Sequence)
    }
}

/// Admits the next runtime-uninstall request against the uninstall ledger.
pub fn next_runtime_uninstall_sequence(owner: u64, sequence: u64, ledger_owner: u64, last_sequence: u64) -> (result: Result<(), RuntimeUninstallError>)
    ensures
        result is Ok <==> sequence_admitted(owner, sequence, ledger_owner, last_sequence),
        result is Err ==> result == Err::<(), RuntimeUninstallError>(RuntimeUninstallError::Sequence),
{
    if sequence_is_next(owner, sequence, ledger_owner, last_sequence) {
        Ok(())
    } else {
        Err(RuntimeUninstallError::Sequence)
    }
}

/// Admits the next runtime-install request against the install ledger.
pub fn next_runtime_install_sequence(owner: u64, sequence: u64, ledger_owner: u64, last_sequence: u64) -> (result: Result<(), RuntimeInstallError>)
    ensures
        result is Ok <==> sequence_admitted(owner, sequence, ledger_owner, last_sequence),
        result is Err ==> result == Err::<(), RuntimeInstallError>(RuntimeInstallError::Sequence),
{
    if sequence_is_next(owner, sequence, ledger_owner, last_sequence) {
        Ok(())
    } else {
        Err(RuntimeInstallError::Sequence)
    }
}

/// State byte of a request queue that holds no request.
pub const QUEUE_EMPTY: u8 = 0;
/// State byte of a queue whose published request waits for the monitor.
pub const QUEUE_PENDING: u8 = 1;
/// State byte of a queue whose request the monitor is executing.
pub const QUEUE_RUNNING: u8 = 2;
/// State byte of a queue whose outcome waits for its owner.
pub const QUEUE_COMPLETE: u8 = 3;

/// What the package monitor does with one request queue on a service pass.
#[derive(Clone, Copy, Debug, Eq, PartialEq, Structural)]
pub enum ServiceAction {
    /// Leave the queue as it is.
    Idle,
    /// Drop the published request or outcome: its owner can no longer retry.
    Discard,
    /// Move the pending request to running and execute it.
    Claim,
}

/// The monitor's step for a queue in `state` whose owner can (or cannot)
/// still retry: a pending or completed request of a gone owner is discarded,
/// a pending request of a live owner is claimed, and everything else waits.
pub open spec fn spec_service_action(state: u8, owner_can_retry: bool) -> ServiceAction {
    if (state == QUEUE_PENDING || state == QUEUE_COMPLETE) && !owner_can_retry {
        ServiceAction::Discard
    } else if state == QUEUE_PENDING {
        ServiceAction::Claim
    } else {
        ServiceAction::Idle
    }
}

/// Decides one queue's step on a pass of the package monitor (relaunch, then
/// runtime uninstall, then runtime install). The monitor itself masks
/// interrupts, reads the queue state and owner liveness, performs the action
/// and publishes the outcome; a state outside the four queue states is a
/// broken invariant there, so it is not an input here.
pub fn service_pending(state: u8, owner_can_retry: bool) -> (action: ServiceAction)
    requires
        state <= QUEUE_COMPLETE,
    ensures
        action == spec_service_action(state, owner_can_retry),
        action == ServiceAction::Claim ==> state == QUEUE_PENDING && owner_can_retry,
        state == QUEUE_RUNNING || state == QUEUE_EMPTY ==> action == ServiceAction::Idle,
{
    if (state == QUEUE_PENDING || state == QUEUE_COMPLETE) && !owner_can_retry {
        ServiceAction::Discard
    } else if state == QUEUE_PENDING {
        ServiceAction::Claim
    } else {
        ServiceAction::Idle
    }
}

} // verus!
