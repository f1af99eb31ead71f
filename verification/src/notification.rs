//! Notification records and their decoding from message bodies.

use tokio::sync::broadcast::Sender;
use vstd::prelude::*;
use vstd::std_specs::convert::TryFromSpecImpl;
use crate::clock::utc_now_millis;
use crate::value::{lemma_lookup_absent, lemma_lookup_last, lookup, take, Value};

verus! {

/// Why a message body was not turned into a notification.
#[derive(Clone, Copy, Debug, PartialEq, Eq, Structural)]
pub enum DecodeError {
    /// The body does not have the fields of a notification request.
    Malformed,
    /// The `image-data` hint is not an image.
    InvalidImage,
}

/// A raw bitmap sent along with a notification.
#[derive(Clone, Debug, PartialEq, Eq)]
pub struct ImageData {
    /// Width of the image in pixels.
    pub width: i32,
    /// Height of the image in pixels.
    pub height: i32,
    /// Distance in bytes between row starts.
    pub rowstride: i32,
    /// Whether the image has an alpha channel.
    pub has_alpha: bool,
    /// Always 8.
    pub bits_per_sample: i32,
    /// 4 with an alpha channel, otherwise 3.
    pub channels: i32,
    /// The pixels, row by row, in RGB byte order.
    pub data: Vec<u8>,
}

/// An image as plain numbers and bytes.
pub struct ImageDataView {
    /// Width of the image in pixels.
    pub width: int,
    /// Height of the image in pixels.
    pub height: int,
    /// Distance in bytes between row starts.
    pub rowstride: int,
    /// Whether the image has an alpha channel.
    pub has_alpha: bool,
    /// Bits in one sample.
    pub bits_per_sample: int,
    /// Samples in one pixel.
    pub channels: int,
    /// The pixels, row by row.
    pub data: Seq<u8>,
}

impl View for ImageData {
    type V = ImageDataView;

    open spec fn view(&self) -> ImageDataView {
        ImageDataView {
            width: self.width as int,
            height: self.height as int,
            rowstride: self.rowstride as int,
            has_alpha: self.has_alpha,
            bits_per_sample: self.bits_per_sample as int,
            channels: self.channels as int,
            data: self.data@,
        }
    }
}

impl ImageData {
    /// The only sample width an image may have.
    pub const BITS_PER_SAMPLE: i32 = 8;

    /// Whether `fields` are those of an image structure: three 32-bit integers, a boolean,
    /// two more 32-bit integers and a byte array.
    pub open spec fn is_layout(fields: Seq<Value>) -> bool {
        &&& fields.len() == 7
        &&& fields[0] is I32
        &&& fields[1] is I32
        &&& fields[2] is I32
        &&& fields[3] is Bool
        &&& fields[4] is I32
        &&& fields[5] is I32
        &&& fields[6] is Bytes
    }

    /// The image that fields of the right layout describe, field by field.
    pub open spec fn from_fields(fields: Seq<Value>) -> ImageData
        recommends
            Self::is_layout(fields),
    {
        ImageData {
            width: fields[0]->I32_0,
            height: fields[1]->I32_0,
            rowstride: fields[2]->I32_0,
            has_alpha: fields[3]->Bool_0,
            bits_per_sample: fields[4]->I32_0,
            channels: fields[5]->I32_0,
            data: fields[6]->Bytes_0,
        }
    }

    /// Whether `value` is accepted as an image: a structure of the image layout whose
    /// samples are 8 bits wide.
    pub open spec fn accepts(value: Value) -> bool {
        &&& value is Structure
        &&& Self::is_layout(value->Structure_0@)
        &&& value->Structure_0@[4]->I32_0 == Self::BITS_PER_SAMPLE
    }

    /// What reading an image out of `value` gives: the image, field by field, if the value
    /// is accepted, and `InvalidImage` if it is not.
    pub open spec fn decoded(value: Value) -> Result<ImageData, DecodeError> {
        if Self::accepts(value) {
            Ok(Self::from_fields(value->Structure_0@))
        } else {
            Err(DecodeError::InvalidImage)
        }
    }
}

impl TryFromSpecImpl<Value> for ImageData {
    open spec fn obeys_try_from_spec() -> bool {
        true
    }

    open spec fn try_from_spec(value: Value) -> Result<Self, DecodeError> {
        Self::decoded(value)
    }
}

impl TryFrom<Value> for ImageData {
    type Error = DecodeError;

    /// Reads an image out of the value of an `image-data` hint.
    ///
    /// The value must be a structure of exactly seven fields of the kinds of
    /// `width, height, rowstride, has_alpha, bits_per_sample, channels, data`, and the
    /// samples must be 8 bits wide: an image of any other sample width is turned down here
    /// rather than handed on to be drawn. Each field is taken over unchanged.
    fn try_from(value: Value) -> (image: Result<Self, DecodeError>)
        ensures
            image == Self::decoded(value),
    {
        let mut fields = match value {
            Value::Structure(fields) => fields,
            _ => return Err(DecodeError::InvalidImage),
        };
        if fields.len() != 7 {
            return Err(DecodeError::InvalidImage);
        }
        let data = match fields.pop().unwrap() {
            Value::Bytes(data) => data,
            _ => return Err(DecodeError::InvalidImage),
        };
        let channels = match fields.pop().unwrap() {
            Value::I32(channels) => channels,
            _ => return Err(DecodeError::InvalidImage),
        };
        let bits_per_sample = match fields.pop().unwrap() {
            Value::I32(bits_per_sample) => bits_per_sample,
            _ => return Err(DecodeError::InvalidImage),
        };
        let has_alpha = match fields.pop().unwrap() {
            Value::Bool(has_alpha) => has_alpha,
            _ => return Err(DecodeError::InvalidImage),
        };
        let rowstride = match fields.pop().unwrap() {
            Value::I32(rowstride) => rowstride,
            _ => return Err(DecodeError::InvalidImage),
        };
        let height = match fields.pop().unwrap() {
            Value::I32(height) => height,
            _ => return Err(DecodeError::InvalidImage),
        };
        let width = match fields.pop().unwrap() {
            Value::I32(width) => width,
            _ => return Err(DecodeError::InvalidImage),
        };
        if bits_per_sample != Self::BITS_PER_SAMPLE {
            return Err(DecodeError::InvalidImage);
        }
        Ok(ImageData { width, height, rowstride, has_alpha, bits_per_sample, channels, data })
    }
}

/// What a notification carries besides its text.
#[derive(Clone, Debug, PartialEq, Eq)]
pub struct Hints {
    /// The image sent under the key `image-data`, if any. Other keys are not kept.
    pub image_data: Option<ImageData>,
}

/// One notification, as decoded from a request. It is never changed afterwards.
#[derive(Clone, Debug, PartialEq, Eq)]
pub struct Notification {
    /// The name of the application that sent it; may be empty.
    pub app_name: String,
    /// If not zero, the notification that this one is meant to replace.
    pub replaces_id: u32,
    /// A path or URI of an icon, taken over as it came; empty for no icon.
    pub app_icon: String,
    /// The headline; may be empty.
    pub summary: String,
    /// The text; may be empty.
    pub body: String,
    /// Action identifiers and their labels, in turn.
    pub actions: Vec<String>,
    /// The hints that are kept.
    pub hints: Hints,
    /// After how many milliseconds the sender wants it gone: -1 for the default, 0 for never.
    pub expire_timeout: i32,
    /// When it was received, in milliseconds of UTC since the start of 1970.
    pub created_at: i64,
}

/// A notification as plain numbers, texts and bytes.
pub struct NotificationView {
    /// The name of the application.
    pub app_name: Seq<char>,
    /// The notification to replace, or zero.
    pub replaces_id: int,
    /// The icon reference.
    pub app_icon: Seq<char>,
    /// The headline.
    pub summary: Seq<char>,
    /// The text.
    pub body: Seq<char>,
    /// Action identifiers and their labels, in turn.
    pub actions: Seq<Seq<char>>,
    /// The image, if one was sent.
    pub image_data: Option<ImageDataView>,
    /// The timeout asked for, in milliseconds.
    pub expire_timeout: int,
    /// The time of receipt, in milliseconds of UTC since the start of 1970.
    pub created_at: int,
}

impl View for Notification {
    type V = NotificationView;

    open spec fn view(&self) -> NotificationView {
        NotificationView {
            app_name: self.app_name@,
            replaces_id: self.replaces_id as int,
            app_icon: self.app_icon@,
            summary: self.summary@,
            body: self.body@,
            actions: Seq::new(self.actions@.len(), |i: int| self.actions@[i]@),
            image_data: match self.hints.image_data {
                Some(image) => Some(image@),
                None => None,
            },
            expire_timeout: self.expire_timeout as int,
            created_at: self.created_at as int,
        }
    }
}

/// A request as it came from the bus, with the time at which it came.
#[derive(Debug, PartialEq, Eq)]
pub struct Message {
    /// The values of the body, in order.
    pub body: Vec<Value>,
    /// When the message was received, in milliseconds of UTC since the start of 1970.
    pub received_at: i64,
}

impl Notification {
    /// The hint key under which an image is sent.
    pub const IMAGE_DATA: &'static str = "image-data";

    /// Whether `body` has the fields of a notification request: `app_name`, `replaces_id`,
    /// `app_icon`, `summary`, `body`, `actions`, `hints` and `expire_timeout`, each of its
    /// kind and nothing more.
    pub open spec fn is_request(body: Seq<Value>) -> bool {
        &&& body.len() == 8
        &&& body[0] is Str
        &&& body[1] is U32
        &&& body[2] is Str
        &&& body[3] is Str
        &&& body[4] is Str
        &&& body[5] is Strings
        &&& body[6] is Dict
        &&& body[7] is I32
    }

    /// The value of the `image-data` hint of a request, if it has one.
    pub open spec fn image_hint(body: Seq<Value>) -> Option<Value>
        recommends
            Self::is_request(body),
    {
        lookup(body[6]->Dict_0@, Self::IMAGE_DATA@)
    }

    /// Why `body` is turned down, if it is: for not being a request, or else for an
    /// `image-data` hint that is not an image.
    pub open spec fn rejection(body: Seq<Value>) -> Option<DecodeError> {
        if !Self::is_request(body) {
            Some(DecodeError::Malformed)
        } else if Self::image_hint(body) is Some && !ImageData::accepts(Self::image_hint(body)->Some_0) {
            Some(DecodeError::InvalidImage)
        } else {
            None
        }
    }

    /// The notification that a request received at `created_at` stands for: every field
    /// as it is in the body, and the image of the `image-data` hint, if there is one.
    pub open spec fn record(body: Seq<Value>, created_at: i64) -> Notification
        recommends
            Self::rejection(body) is None,
    {
        Notification {
            app_name: body[0]->Str_0,
            replaces_id: body[1]->U32_0,
            app_icon: body[2]->Str_0,
            summary: body[3]->Str_0,
            body: body[4]->Str_0,
            actions: body[5]->Strings_0,
            hints: Hints {
                image_data: match Self::image_hint(body) {
                    Some(value) => Some(ImageData::from_fields(value->Structure_0@)),
                    None => None,
                },
            },
            expire_timeout: body[7]->I32_0,
            created_at,
        }
    }
}

impl Notification {
    /// What decoding `message` gives: the error for which its body is turned down, or the
    /// notification that the body stands for, received when the message was.
    pub open spec fn decoded(message: Message) -> Result<Notification, DecodeError> {
        match Self::rejection(message.body@) {
            Some(error) => Err(error),
            None => Ok(Self::record(message.body@, message.received_at)),
        }
    }
}

impl TryFromSpecImpl<Message> for Notification {
    open spec fn obeys_try_from_spec() -> bool {
        true
    }

    open spec fn try_from_spec(message: Message) -> Result<Self, DecodeError> {
        Self::decoded(message)
    }
}

impl TryFrom<Message> for Notification {
    type Error = DecodeError;

    /// Decodes a received request.
    ///
    /// A body that is not made of the eight fields of a request, each of its kind, is
    /// `Malformed`. Otherwise an `image-data` hint that is not an image is `InvalidImage`:
    /// the request is turned down as a whole, never stripped of its image. Otherwise
    /// the notification holds every field as it came, the image if there is one, and
    /// the time of receipt. Hints under other keys are dropped unread.
    fn try_from(message: Message) -> (decoded: Result<Self, DecodeError>)
        ensures
            decoded == Self::decoded(message),
    {
        let Message { body, received_at } = message;
        let mut fields = body;
        if fields.len() != 8 {
            return Err(DecodeError::Malformed);
        }
        let expire_timeout = match fields.pop().unwrap() {
            Value::I32(expire_timeout) => expire_timeout,
            _ => return Err(DecodeError::Malformed),
        };
        let hints = match fields.pop().unwrap() {
            Value::Dict(hints) => hints,
            _ => return Err(DecodeError::Malformed),
        };
        let actions = match fields.pop().unwrap() {
            Value::Strings(actions) => actions,
            _ => return Err(DecodeError::Malformed),
        };
        let text = match fields.pop().unwrap() {
            Value::Str(text) => text,
            _ => return Err(DecodeError::Malformed),
        };
        let summary = match fields.pop().unwrap() {
            Value::Str(summary) => summary,
            _ => return Err(DecodeError::Malformed),
        };
        let app_icon = match fields.pop().unwrap() {
            Value::Str(app_icon) => app_icon,
            _ => return Err(DecodeError::Malformed),
        };
        let replaces_id = match fields.pop().unwrap() {
            Value::U32(replaces_id) => replaces_id,
            _ => return Err(DecodeError::Malformed),
        };
        let app_name = match fields.pop().unwrap() {
            Value::Str(app_name) => app_name,
            _ => return Err(DecodeError::Malformed),
        };
        let image_data = match take(hints, Self::IMAGE_DATA) {
            Some(value) => match ImageData::try_from(value) {
                Ok(image) => Some(image),
                Err(error) => return Err(error),
            },
            None => None,
        };
        Ok(
            Notification {
                app_name,
                replaces_id,
                app_icon,
                summary,
                body: text,
                actions,
                hints: Hints { image_data },
                expire_timeout,
                created_at: received_at,
            },
        )
    }
}

/// A request that is not turned down decodes to a notification whose every field is the
/// field of the body, unchanged: the texts character for character, the numbers as they
/// are. Its time is the time of receipt.
pub proof fn lemma_decode_keeps_fields(message: Message)
    requires
        Notification::rejection(message.body@) is None,
    ensures
        Notification::decoded(message) matches Ok(notification) && {
            &&& notification@.app_name == message.body@[0]->Str_0@
            &&& notification@.replaces_id == message.body@[1]->U32_0
            &&& notification@.app_icon == message.body@[2]->Str_0@
            &&& notification@.summary == message.body@[3]->Str_0@
            &&& notification@.body == message.body@[4]->Str_0@
            &&& notification@.actions.len() == message.body@[5]->Strings_0@.len()
            &&& forall|i: int|
                0 <= i < notification@.actions.len() ==> #[trigger] notification@.actions[i]
                    == message.body@[5]->Strings_0@[i]@
            &&& notification@.expire_timeout == message.body@[7]->I32_0
            &&& notification@.created_at == message.received_at
        },
{
}

/// A request whose hints have no `image-data` key decodes, to a notification without an
/// image.
pub proof fn lemma_decode_without_image(message: Message)
    requires
        Notification::is_request(message.body@),
        forall|i: int|
            0 <= i < message.body@[6]->Dict_0@.len() ==> (#[trigger] message.body@[6]->Dict_0@[i]).0@
                != Notification::IMAGE_DATA@,
    ensures
        Notification::decoded(message) matches Ok(notification) && notification@.image_data
            is None,
{
    lemma_lookup_absent(message.body@[6]->Dict_0@, Notification::IMAGE_DATA@);
}

/// A request whose `image-data` hint is an image decodes, to a notification with that
/// image, field by field and byte for byte.
pub proof fn lemma_decode_with_image(message: Message, at: int)
    requires
        Notification::is_request(message.body@),
        0 <= at < message.body@[6]->Dict_0@.len(),
        message.body@[6]->Dict_0@[at].0@ == Notification::IMAGE_DATA@,
        forall|i: int|
            at < i < message.body@[6]->Dict_0@.len() ==> (#[trigger] message.body@[6]->Dict_0@[i]).0@
                != Notification::IMAGE_DATA@,
        ImageData::accepts(message.body@[6]->Dict_0@[at].1),
    ensures
        Notification::decoded(message) matches Ok(notification) && notification@.image_data
            == Some(
            ImageDataView {
                width: message.body@[6]->Dict_0@[at].1->Structure_0@[0]->I32_0 as int,
                height: message.body@[6]->Dict_0@[at].1->Structure_0@[1]->I32_0 as int,
                rowstride: message.body@[6]->Dict_0@[at].1->Structure_0@[2]->I32_0 as int,
                has_alpha: message.body@[6]->Dict_0@[at].1->Structure_0@[3]->Bool_0,
                bits_per_sample: 8,
                channels: message.body@[6]->Dict_0@[at].1->Structure_0@[5]->I32_0 as int,
                data: message.body@[6]->Dict_0@[at].1->Structure_0@[6]->Bytes_0@,
            },
        ),
{
    lemma_lookup_last(message.body@[6]->Dict_0@, Notification::IMAGE_DATA@, at);
}

/// A request whose `image-data` hint is not a structure of the seven image fields, each
/// of its kind, is turned down as `InvalidImage`, and so no notification comes of it.
pub proof fn lemma_decode_rejects_other_layout(message: Message)
    requires
        Notification::is_request(message.body@),
        Notification::image_hint(message.body@) matches Some(value) && !(value is Structure
            && ImageData::is_layout(value->Structure_0@)),
    ensures
        Notification::decoded(message) == Err::<Notification, DecodeError>(
            DecodeError::InvalidImage,
        ),
{
}

/// A request whose image has samples of another width than 8 bits is turned down as
/// `InvalidImage`, though its fields are of the right kinds.
pub proof fn lemma_decode_rejects_sample_width(message: Message)
    requires
        Notification::is_request(message.body@),
        Notification::image_hint(message.body@) matches Some(value) && value is Structure
            && ImageData::is_layout(value->Structure_0@) && value->Structure_0@[4]->I32_0
            != ImageData::BITS_PER_SAMPLE,
    ensures
        Notification::decoded(message) == Err::<Notification, DecodeError>(
            DecodeError::InvalidImage,
        ),
{
}

/// Decodes the body of a request that has just been received.
///
/// The time of receipt is read from the clock; in everything else the outcome is that
/// of decoding a [`Message`] with this body.
pub fn decode(body: Vec<Value>) -> (decoded: Result<Notification, DecodeError>)
    ensures
        match Notification::rejection(body@) {
            Some(error) => decoded == Err::<Notification, DecodeError>(error),
            None => decoded matches Ok(notification) && notification == Notification::record(
                body@,
                notification.created_at,
            ),
        },
{
    let received_at = utc_now_millis();
    Notification::try_from(Message { body, received_at })
}

/// The sending half of `tokio`'s broadcast channel, through which records reach their
/// subscribers. Nothing inside it is visible here.
#[verifier::external_type_specification]
#[verifier::external_body]
#[verifier::reject_recursive_types(T)]
pub struct ExSender<T>(tokio::sync::broadcast::Sender<T>);

/// Hands `value` to every subscriber of the channel.
///
/// Trusted: calls `tokio::sync::broadcast::Sender::send`, which fails, giving the value
/// back, when the channel has no subscriber at that moment, and otherwise stores the value
/// for all of them and returns how many there are, which is then at least one.
#[verifier::external_body]
fn send<T>(tx: &Sender<T>, value: T) -> (sent: Result<usize, T>)
    ensures
        sent matches Ok(receivers) ==> receivers >= 1,
        sent matches Err(returned) ==> returned == value,
{
    match tx.send(value) {
        Ok(receivers) => Ok(receivers),
        Err(error) => Err(error.0),
    }
}

/// What became of one request.
#[derive(Debug, PartialEq, Eq)]
pub enum Delivery {
    /// The notification was handed to this many subscribers.
    Published(usize),
    /// The request was decoded, but nobody was subscribed: here is the notification back.
    Unheard(Notification),
    /// The request was turned down and nothing was published.
    Rejected(DecodeError),
}

impl Delivery {
    /// What the channel's answer to a notification amounts to: published to the
    /// subscribers it counted, or unheard, with the notification it gave back.
    pub fn of_send(sent: Result<usize, Notification>) -> (delivery: Delivery)
        ensures
            delivery == match sent {
                Ok(receivers) => Delivery::Published(receivers),
                Err(returned) => Delivery::Unheard(returned),
            },
    {
        match sent {
            Ok(receivers) => Delivery::Published(receivers),
            Err(returned) => Delivery::Unheard(returned),
        }
    }

    /// Whether a request with this body may end so: turned down exactly when decoding
    /// turns it down, and with the same error; otherwise published to at least one
    /// subscriber, or returned as the very notification that the body stands for.
    pub open spec fn answers(self, body: Seq<Value>) -> bool {
        match Notification::rejection(body) {
            Some(error) => self == Delivery::Rejected(error),
            None => match self {
                Delivery::Published(receivers) => receivers >= 1,
                Delivery::Unheard(notification) => notification == Notification::record(
                    body,
                    notification.created_at,
                ),
                Delivery::Rejected(_) => false,
            },
        }
    }
}

/// Publishes a notification to the subscribers of the channel.
///
/// Whether anyone is subscribed is for the channel to say: the notification is either
/// published to at least one subscriber or comes back as it was.
pub fn publish(notification: Notification, tx: &Sender<Notification>) -> (delivery: Delivery)
    ensures
        (delivery matches Delivery::Published(receivers) && receivers >= 1) || delivery
            == Delivery::Unheard(notification),
{
    Delivery::of_send(send(tx, notification))
}

/// Decodes one request and publishes the notification.
///
/// A request that is turned down is reported and nothing of it is published.
pub fn handle_message(body: Vec<Value>, tx: &Sender<Notification>) -> (delivery: Delivery)
    ensures
        delivery.answers(body@),
{
    match decode(body) {
        Ok(notification) => publish(notification, tx),
        Err(error) => Delivery::Rejected(error),
    }
}

/// The interface that notification requests are addressed to.
pub const INTERFACE: &'static str = "org.freedesktop.Notifications";

/// The method by which a notification is requested.
pub const MEMBER: &'static str = "Notify";

/// The object path that notification requests are addressed to.
pub const PATH: &'static str = "/org/freedesktop/Notifications";

/// What wakes the loop that listens on the bus.
#[derive(Debug, PartialEq, Eq)]
pub enum Event {
    /// The shutdown signal fired.
    Shutdown,
    /// A request arrived, with this body.
    Message(Vec<Value>),
    /// The stream of messages ended without an error.
    Ended,
    /// The connection to the bus failed, for this reason.
    Failed(String),
}

/// A failure of the connection to the bus. It ends the listening for good.
#[derive(Debug, PartialEq, Eq)]
pub struct IngestError {
    /// What the transport reported.
    pub reason: String,
}

/// What the listening loop does after an event.
#[derive(Debug, PartialEq, Eq)]
pub enum Step {
    /// Wait for the next event; this became of the request.
    Continue(Delivery),
    /// Return, with this result.
    Finished(Result<(), IngestError>),
}

/// One turn of the loop that listens for requests: takes the event that woke the loop and
/// says how the loop goes on.
///
/// The shutdown signal ends the loop with success in the very turn that sees it, and so
/// does the end of the stream. A failed connection ends it with the error. A request is
/// decoded and published within its turn, whatever arrives meanwhile, and the loop goes
/// on, also when the request was turned down.
pub fn listen(event: Event, tx: &Sender<Notification>) -> (step: Step)
    ensures
        match event {
            Event::Shutdown | Event::Ended => step == Step::Finished(Ok(())),
            Event::Failed(reason) => step == Step::Finished(Err(IngestError { reason })),
            Event::Message(body) => step matches Step::Continue(delivery) && delivery.answers(
                body@,
            ),
        },
{
    match event {
        Event::Shutdown => Step::Finished(Ok(())),
        Event::Ended => Step::Finished(Ok(())),
        Event::Failed(reason) => Step::Finished(Err(IngestError { reason })),
        Event::Message(body) => Step::Continue(handle_message(body, tx)),
    }
}

/// What a subscriber's end of the channel hands out.
#[derive(Debug, PartialEq, Eq)]
pub enum Received {
    /// The next notification, in the order of publishing.
    Record(Notification),
    /// The subscriber fell behind and this many notifications are lost to it.
    Lagged(u64),
    /// Every sender is gone and nothing is left to read.
    Closed,
}

/// What a subscriber does with what it received.
#[derive(Debug, PartialEq, Eq)]
pub enum Next {
    /// Handle this notification, then read on.
    Handle(Notification),
    /// Read on: a gap is put up with.
    Resume,
    /// Stop reading.
    Stop,
}

/// One turn of a subscriber's loop: a notification is handled, a gap is put up with, and
/// a closed channel ends the loop.
pub fn receive(received: Received) -> (next: Next)
    ensures
        next == match received {
            Received::Record(notification) => Next::Handle(notification),
            Received::Lagged(_) => Next::Resume,
            Received::Closed => Next::Stop,
        },
{
    match received {
        Received::Record(notification) => Next::Handle(notification),
        Received::Lagged(_) => Next::Resume,
        Received::Closed => Next::Stop,
    }
}

} // verus!
