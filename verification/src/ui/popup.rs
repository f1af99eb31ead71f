//! The stack of popups: which popup stands where, and what each one shows.
//!
//! Popups stand in a column that hangs from the top of the screen. The newest is at the
//! top, each older one below the one that came after it.

use vstd::prelude::*;
use crate::clock::{is_time_label, local_time_label};
use crate::notification::{ImageData, Notification};

verus! {

/// The gap between two popups, in pixels.
pub const GAP: i32 = 10;

/// The margin between the column of popups and the edges of the screen, in pixels.
pub const MARGIN: i32 = 10;

/// The width of a popup, in pixels.
pub const WIDTH: i32 = 350;

/// The side of the square that a notification's image is shown in, in pixels.
pub const IMAGE_SIZE: i32 = 48;

/// One popup of the stack.
#[derive(Clone, Copy, Debug, PartialEq, Eq, Structural)]
pub struct PopupItem {
    /// The handle by which the popup's window is known.
    pub identity: u64,
    /// The height that the window was measured to have once laid out, in pixels.
    pub measured_height: i32,
}

/// Where one popup is to stand.
#[derive(Clone, Copy, Debug, PartialEq, Eq, Structural)]
pub struct Placement {
    /// The popup's handle.
    pub identity: u64,
    /// The distance of its top from the top of the screen, in pixels. The type is wide
    /// enough for a column of any length.
    pub offset: i128,
}

/// The distance from the top of the screen at which the popup at `index` stands, in the
/// stack `items` that lists the popups from oldest to newest: the margin for the newest,
/// and for every other the place of the next newer one, plus that one's height and the gap.
pub open spec fn offset_of(items: Seq<PopupItem>, index: int) -> int
    decreases items.len() - index,
{
    if index >= items.len() - 1 {
        MARGIN as int
    } else {
        offset_of(items, index + 1) + items[index + 1].measured_height + GAP
    }
}

/// The stack `items` without the popups known by `identity`, the others in their order.
pub open spec fn without(items: Seq<PopupItem>, identity: u64) -> Seq<PopupItem>
    decreases items.len(),
{
    if items.len() == 0 {
        items
    } else if items.last().identity == identity {
        without(items.drop_last(), identity)
    } else {
        without(items.drop_last(), identity).push(items.last())
    }
}

/// The stack `items` with `height` as the measured height of the popups known by
/// `identity`.
pub open spec fn measured(items: Seq<PopupItem>, identity: u64, height: i32) -> Seq<PopupItem> {
    Seq::new(
        items.len(),
        |i: int|
            if items[i].identity == identity {
                PopupItem { identity, measured_height: height }
            } else {
                items[i]
            },
    )
}

/// Whether `placements` are the places of all popups of `items`, from the newest to the
/// oldest.
pub open spec fn places(placements: Seq<Placement>, items: Seq<PopupItem>) -> bool {
    &&& placements.len() == items.len()
    &&& forall|j: int|
        0 <= j < placements.len() ==> (#[trigger] placements[j]).identity == items[items.len() - 1
            - j].identity && placements[j].offset == offset_of(items, items.len() - 1 - j)
}

/// The newest popup stands at the margin.
pub proof fn lemma_newest_at_margin(items: Seq<PopupItem>)
    requires
        items.len() > 0,
    ensures
        offset_of(items, items.len() - 1) == MARGIN,
{
}

/// Every popup but the newest stands directly below the next newer one: further down by
/// that one's measured height and the gap.
pub proof fn lemma_below_next_newer(items: Seq<PopupItem>, index: int)
    requires
        0 <= index < items.len() - 1,
    ensures
        offset_of(items, index) == offset_of(items, index + 1) + items[index
            + 1].measured_height + GAP,
{
}

/// A push moves every popup that was there further down, by the measured height of the
/// new popup and the gap.
pub proof fn lemma_push_moves_down(items: Seq<PopupItem>, item: PopupItem, index: int)
    requires
        0 <= index < items.len(),
    ensures
        offset_of(items.push(item), index) == offset_of(items, index) + item.measured_height
            + GAP,
    decreases items.len() - index,
{
    let pushed = items.push(item);
    if index < items.len() - 1 {
        lemma_push_moves_down(items, item, index + 1);
        assert(pushed[index + 1] == items[index + 1]);
    } else {
        assert(offset_of(pushed, index + 1) == MARGIN);
        assert(pushed[index + 1] == item);
    }
}

/// Taking a popup away leaves every newer popup where it stood.
pub proof fn lemma_remove_keeps_newer(items: Seq<PopupItem>, removed: int, index: int)
    requires
        0 <= removed < index < items.len(),
    ensures
        offset_of(items.remove(removed), index - 1) == offset_of(items, index),
    decreases items.len() - index,
{
    if index < items.len() - 1 {
        lemma_remove_keeps_newer(items, removed, index + 1);
        assert(items.remove(removed)[index] == items[index + 1]);
    }
}

/// Taking a popup away moves every older popup up, by the measured height of the popup
/// that went and the gap.
pub proof fn lemma_remove_lifts_older(items: Seq<PopupItem>, removed: int, index: int)
    requires
        0 <= index < removed < items.len(),
    ensures
        offset_of(items.remove(removed), index) == offset_of(items, index)
            - items[removed].measured_height - GAP,
    decreases removed - index,
{
    let rest = items.remove(removed);
    if index < removed - 1 {
        lemma_remove_lifts_older(items, removed, index + 1);
        assert(rest[index + 1] == items[index + 1]);
    } else if removed < items.len() - 1 {
        lemma_remove_keeps_newer(items, removed, removed + 1);
        assert(rest[removed] == items[removed + 1]);
        assert(offset_of(items, removed) == offset_of(items, removed + 1) + items[removed
            + 1].measured_height + GAP);
    } else {
        assert(offset_of(rest, index) == MARGIN);
        assert(offset_of(items, removed) == MARGIN);
    }
}

/// Removing by a handle that no popup of the stack is known by changes nothing.
pub proof fn lemma_without_absent(items: Seq<PopupItem>, identity: u64)
    requires
        forall|i: int| 0 <= i < items.len() ==> (#[trigger] items[i]).identity != identity,
    ensures
        without(items, identity) == items,
    decreases items.len(),
{
    if items.len() > 0 {
        lemma_without_absent(items.drop_last(), identity);
        assert(items.drop_last().push(items.last()) == items);
    }
}

/// Removing by the handle of exactly one popup takes that popup away, wherever it stands,
/// and leaves the others in their order.
pub proof fn lemma_without_one(items: Seq<PopupItem>, identity: u64, at: int)
    requires
        0 <= at < items.len(),
        items[at].identity == identity,
        forall|i: int|
            0 <= i < items.len() && i != at ==> (#[trigger] items[i]).identity != identity,
    ensures
        without(items, identity) == items.remove(at),
    decreases items.len(),
{
    if at == items.len() - 1 {
        lemma_without_absent(items.drop_last(), identity);
        assert(items.drop_last() == items.remove(at));
    } else {
        lemma_without_one(items.drop_last(), identity, at);
        assert(items.drop_last().remove(at).push(items.last()) == items.remove(at));
    }
}

/// What is left after removing by a handle holds no popup known by it, and is no longer
/// than the stack was.
pub proof fn lemma_without_removes_all(items: Seq<PopupItem>, identity: u64)
    ensures
        without(items, identity).len() <= items.len(),
        forall|i: int|
            0 <= i < without(items, identity).len() ==> (#[trigger] without(
                items,
                identity,
            )[i]).identity != identity,
    decreases items.len(),
{
    if items.len() > 0 {
        lemma_without_removes_all(items.drop_last(), identity);
    }
}

/// The places of the popups are fixed by the stack alone: working them out again, with
/// the stack unchanged, gives the same places.
pub proof fn lemma_places_unique(
    first: Seq<Placement>,
    second: Seq<Placement>,
    items: Seq<PopupItem>,
)
    requires
        places(first, items),
        places(second, items),
    ensures
        first == second,
{
    assert(first =~= second);
}

/// The popups on screen, in the order in which they were pushed.
pub struct Windows {
    items: Vec<PopupItem>,
}

impl View for Windows {
    type V = Seq<PopupItem>;

    closed spec fn view(&self) -> Seq<PopupItem> {
        self.items@
    }
}

impl Windows {
    /// An empty stack.
    pub fn new() -> (windows: Self)
        ensures
            windows@ == Seq::<PopupItem>::empty(),
    {
        Windows { items: Vec::new() }
    }

    /// How many popups the stack holds.
    pub fn len(&self) -> (len: usize)
        ensures
            len == self@.len(),
    {
        self.items.len()
    }

    /// The popup at `index`, counted from the oldest, if there is one.
    pub fn get(&self, index: usize) -> (item: Option<PopupItem>)
        ensures
            item == if index < self@.len() {
                Some(self@[index as int])
            } else {
                None
            },
    {
        if index < self.items.len() {
            Some(self.items[index])
        } else {
            None
        }
    }

    /// Puts a popup on the stack as its newest.
    pub fn push(&mut self, item: PopupItem)
        ensures
            final(self)@ == old(self)@.push(item),
    {
        self.items.push(item);
    }

    /// Takes the popups known by `identity` off the stack. The others keep their order; a
    /// stack without such a popup stays as it is.
    pub fn remove(&mut self, identity: u64)
        ensures
            final(self)@ == without(old(self)@, identity),
    {
        let mut kept: Vec<PopupItem> = Vec::new();
        let mut i: usize = 0;
        while i < self.items.len()
            invariant
                i <= self.items@.len(),
                self.items@ == old(self).items@,
                kept@ == without(self.items@.take(i as int), identity),
            decreases self.items@.len() - i,
        {
            let item = self.items[i];
            assert(self.items@.take(i + 1).drop_last() == self.items@.take(i as int));
            if item.identity != identity {
                kept.push(item);
            }
            i += 1;
        }
        assert(self.items@.take(i as int) == self.items@);
        self.items = kept;
    }

    /// Records `height` as the measured height of the popups known by `identity`.
    pub fn measure(&mut self, identity: u64, height: i32)
        ensures
            final(self)@ == measured(old(self)@, identity, height),
    {
        let mut i: usize = 0;
        while i < self.items.len()
            invariant
                i <= self.items@.len(),
                self.items@.len() == old(self).items@.len(),
                forall|k: int|
                    0 <= k < i ==> self.items@[k] == measured(old(self).items@, identity, height)[k],
                forall|k: int| i <= k < self.items@.len() ==> self.items@[k] == old(self).items@[k],
            decreases self.items@.len() - i,
        {
            if self.items[i].identity == identity {
                self.items.set(i, PopupItem { identity, measured_height: height });
            }
            i += 1;
        }
        assert(self.items@ =~= measured(old(self).items@, identity, height));
    }

    /// Works out where every popup is to stand, from the newest to the oldest.
    ///
    /// The newest popup stands at the margin. Each older one stands below the one that
    /// came after it, further down by that one's measured height and the gap.
    pub fn adjust(&self) -> (placements: Vec<Placement>)
        ensures
            places(placements@, self@),
    {
        let count = self.items.len();
        let mut placements: Vec<Placement> = Vec::new();
        let mut offset: i128 = MARGIN as i128;
        let mut placed: usize = 0;
        while placed < count
            invariant
                count == self.items@.len(),
                placed <= count,
                placements@.len() == placed,
                offset == offset_of(self.items@, count - 1 - placed),
                -0x1_0000_0000 * placed <= offset <= 0x1_0000_0000 * placed + MARGIN,
                forall|j: int|
                    0 <= j < placed ==> (#[trigger] placements@[j]).identity == self.items@[count
                        - 1 - j].identity && placements@[j].offset == offset_of(
                        self.items@,
                        count - 1 - j,
                    ),
            decreases count - placed,
        {
            let item = self.items[count - 1 - placed];
            placements.push(Placement { identity: item.identity, offset });
            offset = offset + item.measured_height as i128 + GAP as i128;
            placed += 1;
        }
        placements
    }
}

/// Why an image cannot be drawn.
#[derive(Clone, Copy, Debug, PartialEq, Eq, Structural)]
pub enum ImageError {
    /// The samples are not 8 bits wide.
    SampleWidth,
    /// The number of channels is not 4 with an alpha channel, or not 3 without one.
    Channels,
    /// The width or the height is not positive.
    Size,
    /// A row does not fit between two row starts.
    Rowstride,
    /// There are fewer bytes than the rows take up.
    Truncated,
}

/// What a bitmap is made of.
pub struct BitmapView {
    /// Width in pixels.
    pub width: int,
    /// Height in pixels.
    pub height: int,
    /// Distance in bytes between row starts.
    pub rowstride: int,
    /// Whether each pixel has an alpha sample after its red, green and blue ones.
    pub has_alpha: bool,
    /// The pixels, row by row.
    pub data: Seq<u8>,
}

impl BitmapView {
    /// How many bytes one pixel takes.
    pub open spec fn channels(self) -> int {
        if self.has_alpha {
            4
        } else {
            3
        }
    }

    /// Whether the bitmap can be drawn: it has pixels, every row fits between two row
    /// starts, and the bytes are there for every row.
    pub open spec fn is_drawable(self) -> bool {
        &&& self.width > 0
        &&& self.height > 0
        &&& self.rowstride >= self.width * self.channels()
        &&& self.data.len() >= self.rowstride * self.height
    }
}

/// An image that can be drawn: 8 bits per sample, in RGB order.
#[derive(Debug, PartialEq, Eq)]
pub struct Bitmap {
    width: i32,
    height: i32,
    rowstride: i32,
    has_alpha: bool,
    data: Vec<u8>,
}

impl View for Bitmap {
    type V = BitmapView;

    closed spec fn view(&self) -> BitmapView {
        BitmapView {
            width: self.width as int,
            height: self.height as int,
            rowstride: self.rowstride as int,
            has_alpha: self.has_alpha,
            data: self.data@,
        }
    }
}

impl Bitmap {
    #[verifier::type_invariant]
    spec fn drawable(self) -> bool {
        self@.is_drawable()
    }

    /// Width in pixels; positive.
    pub fn width(&self) -> (width: i32)
        ensures
            width == self@.width,
            self@.is_drawable(),
    {
        proof {
            use_type_invariant(self);
        }
        self.width
    }

    /// Height in pixels; positive.
    pub fn height(&self) -> (height: i32)
        ensures
            height == self@.height,
            self@.is_drawable(),
    {
        proof {
            use_type_invariant(self);
        }
        self.height
    }

    /// Distance in bytes between row starts.
    pub fn rowstride(&self) -> (rowstride: i32)
        ensures
            rowstride == self@.rowstride,
            self@.is_drawable(),
    {
        proof {
            use_type_invariant(self);
        }
        self.rowstride
    }

    /// Whether each pixel has an alpha sample.
    pub fn has_alpha(&self) -> (has_alpha: bool)
        ensures
            has_alpha == self@.has_alpha,
            self@.is_drawable(),
    {
        proof {
            use_type_invariant(self);
        }
        self.has_alpha
    }

    /// Gives up the bitmap for its pixels.
    pub fn into_data(self) -> (data: Vec<u8>)
        ensures
            data@ == self@.data,
            self@.is_drawable(),
    {
        proof {
            use_type_invariant(&self);
        }
        self.data
    }
}

/// Why `image` cannot be drawn, if it cannot.
pub open spec fn image_error(image: ImageData) -> Option<ImageError> {
    if image.bits_per_sample != ImageData::BITS_PER_SAMPLE {
        Some(ImageError::SampleWidth)
    } else if image.channels != bitmap_of(image).channels() {
        Some(ImageError::Channels)
    } else if image.width <= 0 || image.height <= 0 {
        Some(ImageError::Size)
    } else if image.rowstride < image.width * image.channels {
        Some(ImageError::Rowstride)
    } else if image.data@.len() < image.rowstride * image.height {
        Some(ImageError::Truncated)
    } else {
        None
    }
}

/// The bitmap that `image` describes.
pub open spec fn bitmap_of(image: ImageData) -> BitmapView {
    BitmapView {
        width: image.width as int,
        height: image.height as int,
        rowstride: image.rowstride as int,
        has_alpha: image.has_alpha,
        data: image.data@,
    }
}

/// The text to show for a field: none for an empty one.
pub open spec fn shown(text: String) -> Option<String> {
    if text@.len() == 0 {
        None
    } else {
        Some(text)
    }
}

/// The bitmap to show for an image hint: none without a hint, and none for an image
/// that cannot be drawn.
pub open spec fn shown_image(image_data: Option<ImageData>) -> Option<BitmapView> {
    match image_data {
        Some(image) => if image_error(image) is None {
            Some(bitmap_of(image))
        } else {
            None
        },
        None => None,
    }
}

/// What a popup shows. The header, with the name of the application and the time, is
/// always there; every other part only if there is something to show in it.
#[derive(Debug, PartialEq, Eq)]
pub struct Popup {
    /// The icon reference, for the header.
    pub icon: Option<String>,
    /// The name of the application, for the header.
    pub app_name: String,
    /// The time of day, for the header.
    pub time: String,
    /// The headline, below the header.
    pub summary: Option<String>,
    /// The text, in the content row.
    pub body: Option<String>,
    /// The image, in the content row beside the text.
    pub image: Option<Bitmap>,
    /// Why the image that was sent is not shown, if one was sent and is not.
    pub image_error: Option<ImageError>,
}

impl Popup {
    /// Whether the popup has a content row: it has one for a text or an image.
    pub open spec fn spec_has_content(&self) -> bool {
        self.body is Some || self.image is Some
    }

    /// Whether the popup has a content row: it has one for a text or an image.
    #[verifier::when_used_as_spec(spec_has_content)]
    pub fn has_content(&self) -> (has_content: bool)
        ensures
            has_content == self.spec_has_content(),
    {
        self.body.is_some() || self.image.is_some()
    }

    /// Whether this is what a popup for `notification` shows, at the time `time`.
    pub open spec fn shows(self, notification: Notification, time: String) -> bool {
        &&& self.icon == shown(notification.app_icon)
        &&& self.app_name == notification.app_name
        &&& self.time == time
        &&& self.summary == shown(notification.summary)
        &&& self.body == shown(notification.body)
        &&& match shown_image(notification.hints.image_data) {
            Some(bitmap) => self.image is Some && self.image->Some_0@ == bitmap,
            None => self.image is None,
        }
        &&& self.image_error == match notification.hints.image_data {
            Some(image) => image_error(image),
            None => None,
        }
    }
}

/// A notification without headline, text and image still has a popup: one that is made
/// of its header alone.
pub proof fn lemma_header_alone(popup: Popup, notification: Notification, time: String)
    requires
        popup.shows(notification, time),
        notification.summary@.len() == 0,
        notification.body@.len() == 0,
        notification.hints.image_data is None,
    ensures
        popup.app_name == notification.app_name,
        popup.time == time,
        popup.summary is None,
        !popup.has_content(),
{
}

/// The text to show for a field: none for an empty one.
fn text_of(text: String) -> (text_shown: Option<String>)
    ensures
        text_shown == shown(text),
{
    if text.as_str().is_empty() {
        None
    } else {
        Some(text)
    }
}

/// The stack of popups, as the rest of the program drives it.
pub struct Manager {
    windows: Windows,
}

impl View for Manager {
    type V = Seq<PopupItem>;

    closed spec fn view(&self) -> Seq<PopupItem> {
        self.windows@
    }
}

impl Manager {
    /// A manager without any popup.
    pub fn new() -> (manager: Self)
        ensures
            manager@ == Seq::<PopupItem>::empty(),
    {
        Manager { windows: Windows::new() }
    }

    /// The popups on screen, in the order in which they were pushed.
    pub fn windows(&self) -> (windows: &Windows)
        ensures
            windows@ == self@,
    {
        &self.windows
    }

    /// Takes in the popup that was made for a notification: puts it on the stack as the
    /// newest, and says where every popup is to stand now, from the newest to the oldest.
    pub fn push(&mut self, identity: u64, measured_height: i32) -> (placements: Vec<Placement>)
        ensures
            final(self)@ == old(self)@.push(PopupItem { identity, measured_height }),
            places(placements@, final(self)@),
    {
        self.windows.push(PopupItem { identity, measured_height });
        self.windows.adjust()
    }

    /// Drops the popups known by `identity`, as when the user has dismissed one, and says
    /// where every popup that is left is to stand now, from the newest to the oldest.
    /// Without such a popup the stack stays as it is.
    pub fn remove(&mut self, identity: u64) -> (placements: Vec<Placement>)
        ensures
            final(self)@ == without(old(self)@, identity),
            places(placements@, final(self)@),
    {
        self.windows.remove(identity);
        self.windows.adjust()
    }

    /// Records a new measured height for the popups known by `identity`, and says where
    /// every popup is to stand now, from the newest to the oldest.
    pub fn measure(&mut self, identity: u64, measured_height: i32) -> (placements: Vec<Placement>)
        ensures
            final(self)@ == measured(old(self)@, identity, measured_height),
            places(placements@, final(self)@),
    {
        self.windows.measure(identity, measured_height);
        self.windows.adjust()
    }

    /// Turns an image hint into a bitmap that can be drawn, or says why it cannot be.
    ///
    /// The samples must be 8 bits wide, the channels 4 with an alpha channel and 3
    /// without, width and height positive, a row no longer than the distance between row
    /// starts, and the bytes at least as many as that distance times the height.
    pub fn image(image_data: ImageData) -> (bitmap: Result<Bitmap, ImageError>)
        ensures
            match image_error(image_data) {
                Some(error) => bitmap == Err::<Bitmap, ImageError>(error),
                None => bitmap is Ok && bitmap->Ok_0@ == bitmap_of(image_data),
            },
    {
        let ImageData { width, height, rowstride, has_alpha, bits_per_sample, channels, data } =
            image_data;
        if bits_per_sample != ImageData::BITS_PER_SAMPLE {
            return Err(ImageError::SampleWidth);
        }
        let expected: i32 = if has_alpha {
            4
        } else {
            3
        };
        if channels != expected {
            return Err(ImageError::Channels);
        }
        if width <= 0 || height <= 0 {
            return Err(ImageError::Size);
        }
        if (rowstride as i64) < (width as i64) * (channels as i64) {
            return Err(ImageError::Rowstride);
        }
        assert(0 <= rowstride * height <= 0x7fff_ffff * 0x7fff_ffff) by (nonlinear_arith)
            requires
                0 <= rowstride <= 0x7fff_ffff,
                0 < height <= 0x7fff_ffff,
        ;
        if (data.len() as u128) < ((rowstride as i64) * (height as i64)) as u128 {
            return Err(ImageError::Truncated);
        }
        Ok(Bitmap { width, height, rowstride, has_alpha, data })
    }

    /// Lays out the popup for a notification that is shown at the time `time`.
    ///
    /// An empty icon reference, headline or text is left out. An image that cannot be
    /// drawn is left out too: the popup is shown without it, and says why.
    pub fn compose(notification: Notification, time: String) -> (popup: Popup)
        ensures
            popup.shows(notification, time),
    {
        let Notification { app_name, app_icon, summary, body, hints, .. } = notification;
        let (image, image_error) = match hints.image_data {
            Some(image_data) => match Self::image(image_data) {
                Ok(bitmap) => (Some(bitmap), None),
                Err(error) => (None, Some(error)),
            },
            None => (None, None),
        };
        Popup {
            icon: text_of(app_icon),
            app_name,
            time,
            summary: text_of(summary),
            body: text_of(body),
            image,
            image_error,
        }
    }

    /// Lays out the popup for a notification that is shown now: as [`Manager::compose`]
    /// does, with the local time of day read from the clock.
    pub fn create_popup_window(notification: Notification) -> (popup: Popup)
        ensures
            popup.shows(notification, popup.time),
            is_time_label(popup.time@),
    {
        Self::compose(notification, local_time_label())
    }
}

} // verus!
