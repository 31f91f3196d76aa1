//! The scene data model: display items, remote resources, and the
//! error taxonomy of diff application and frame production.

use vstd::prelude::*;

verus! {

/// Top-left corner of an axis-aligned box, in pixels.
#[derive(Clone, Copy, PartialEq, Eq, Structural, Debug)]
pub struct RectPosition {
    pub left: u32,
    pub top: u32,
}

/// Extent of an axis-aligned box, in pixels.
#[derive(Clone, Copy, PartialEq, Eq, Structural, Debug)]
pub struct RectSize {
    pub width: u32,
    pub height: u32,
}

/// An axis-aligned box: position plus size, unsigned pixel units.
#[derive(Clone, Copy, PartialEq, Eq, Structural, Debug)]
pub struct BoundingClientRect {
    pub position: RectPosition,
    pub size: RectSize,
}

/// An RGBA color, one byte per channel.
#[derive(Clone, Copy, PartialEq, Eq, Structural, Debug)]
pub struct Color {
    pub red: u8,
    pub green: u8,
    pub blue: u8,
    pub alpha: u8,
}

/// Border edge style.  The wire protocol carries no style information
/// yet, so only the placeholder the engine fills in exists; decoding a
/// real style is a known extension point.
#[derive(Clone, Copy, PartialEq, Eq, Structural, Debug)]
pub enum BorderStyle {
    Solid,
}

/// One value per border edge, in the fixed order top, right, bottom,
/// left.  Holding the four edges as named fields keeps the four-entry,
/// index-aligned shape of the border arrays structural.
#[derive(Clone, Copy, PartialEq, Eq, Structural, Debug)]
pub struct BorderColors {
    pub top: Color,
    pub right: Color,
    pub bottom: Color,
    pub left: Color,
}

/// Border edge styles, in the order top, right, bottom, left.
#[derive(Clone, Copy, PartialEq, Eq, Structural, Debug)]
pub struct BorderStyles {
    pub top: BorderStyle,
    pub right: BorderStyle,
    pub bottom: BorderStyle,
    pub left: BorderStyle,
}

/// Border edge widths in pixels, in the order top, right, bottom, left.
#[derive(Clone, Copy, PartialEq, Eq, Structural, Debug)]
pub struct BorderWidths {
    pub top: u32,
    pub right: u32,
    pub bottom: u32,
    pub left: u32,
}

/// A font resource still pending resolution: the remote key and the
/// encoded font payload as a data URI.
#[derive(Clone, PartialEq, Eq, Debug)]
pub struct RemoteFontResource {
    pub key: u64,
    pub data_uri: String,
}

/// A sized font instance pending resolution.
#[derive(Clone, Copy, PartialEq, Eq, Structural, Debug)]
pub struct RemoteFontInstanceResource {
    pub key: u64,
    pub instance_key: u64,
    pub size: u32,
}

/// An image resource.  Images are a deliberate stub in this protocol:
/// the variant exists so that reaching one yields an explicit
/// unsupported-resource signal rather than silence.
#[derive(Clone, Copy, PartialEq, Eq, Structural, Debug)]
pub struct RemoteImageResource {}

/// A resource queued by the diff applier and drained, in arrival
/// order, at frame-production time.
#[derive(Clone, PartialEq, Eq, Debug)]
pub enum RemoteResource {
    Font(RemoteFontResource),
    FontInstance(RemoteFontInstanceResource),
    Image(RemoteImageResource),
}

/// A filled rectangle display item.
#[derive(Clone, Copy, PartialEq, Eq, Structural, Debug)]
pub struct RemoteRectItem {
    pub rect: BoundingClientRect,
    pub color: Color,
}

/// A four-edge border display item.
#[derive(Clone, Copy, PartialEq, Eq, Structural, Debug)]
pub struct RemoteBorderItem {
    pub rect: BoundingClientRect,
    pub colors: BorderColors,
    pub styles: BorderStyles,
    pub widths: BorderWidths,
}

/// An image display item; a deliberate stub, as with the resource.
#[derive(Clone, Copy, PartialEq, Eq, Structural, Debug)]
pub struct RemoteImageItem {}

/// A text run display item, referring to a font and a sized instance
/// by their remote keys.
#[derive(Clone, PartialEq, Eq, Debug)]
pub struct RemoteTextItem {
    pub rect: BoundingClientRect,
    pub color: Color,
    pub text: String,
    pub font_key: u64,
    pub font_instance_key: u64,
}

/// One display item of the scene's ordered sequence.  The index a
/// display item receives at insertion is its identity: later partial
/// updates address it by that index, and nothing but a full clear ever
/// removes an item.
#[derive(Clone, PartialEq, Eq, Debug)]
pub enum RemoteDisplayItem {
    Rect(RemoteRectItem),
    Border(RemoteBorderItem),
    Image(RemoteImageItem),
    Text(RemoteTextItem),
}

/// The mathematical value of a pending resource: strings as character
/// sequences, everything else as itself.
pub enum ResourceView {
    Font { key: u64, data_uri: Seq<char> },
    FontInstance { key: u64, instance_key: u64, size: u32 },
    Image,
}

impl View for RemoteResource {
    type V = ResourceView;

    open spec fn view(&self) -> ResourceView {
        match self {
            RemoteResource::Font(f) => (ResourceView::Font { key: f.key, data_uri: f.data_uri@ }),
            RemoteResource::FontInstance(f) => (ResourceView::FontInstance {
                key: f.key,
                instance_key: f.instance_key,
                size: f.size,
            }),
            RemoteResource::Image(_) => ResourceView::Image,
        }
    }
}

/// The mathematical value of a display item.
pub enum DisplayItemView {
    Rect { rect: BoundingClientRect, color: Color },
    Border {
        rect: BoundingClientRect,
        colors: BorderColors,
        styles: BorderStyles,
        widths: BorderWidths,
    },
    Image,
    Text {
        rect: BoundingClientRect,
        color: Color,
        text: Seq<char>,
        font_key: u64,
        font_instance_key: u64,
    },
}

impl View for RemoteDisplayItem {
    type V = DisplayItemView;

    open spec fn view(&self) -> DisplayItemView {
        match self {
            RemoteDisplayItem::Rect(i) => (DisplayItemView::Rect { rect: i.rect, color: i.color }),
            RemoteDisplayItem::Border(i) => (DisplayItemView::Border {
                rect: i.rect,
                colors: i.colors,
                styles: i.styles,
                widths: i.widths,
            }),
            RemoteDisplayItem::Image(_) => DisplayItemView::Image,
            RemoteDisplayItem::Text(i) => (DisplayItemView::Text {
                rect: i.rect,
                color: i.color,
                text: i.text@,
                font_key: i.font_key,
                font_instance_key: i.font_instance_key,
            }),
        }
    }
}

impl RemoteDisplayItem {
    /// The rectangle item inside, when this is one.
    pub fn as_rect(&self) -> (r: Option<&RemoteRectItem>)
        ensures
            (match self {
                RemoteDisplayItem::Rect(item) => r == Some(item),
                _ => r is None,
            }),
    {
        if let RemoteDisplayItem::Rect(item) = self {
            Some(item)
        } else {
            None
        }
    }

    /// The border item inside, when this is one.
    pub fn as_border(&self) -> (r: Option<&RemoteBorderItem>)
        ensures
            (match self {
                RemoteDisplayItem::Border(item) => r == Some(item),
                _ => r is None,
            }),
    {
        if let RemoteDisplayItem::Border(item) = self {
            Some(item)
        } else {
            None
        }
    }

    /// The image item inside, when this is one.
    pub fn as_image(&self) -> (r: Option<&RemoteImageItem>)
        ensures
            (match self {
                RemoteDisplayItem::Image(item) => r == Some(item),
                _ => r is None,
            }),
    {
        if let RemoteDisplayItem::Image(item) = self {
            Some(item)
        } else {
            None
        }
    }

    /// The text item inside, when this is one.
    pub fn as_text(&self) -> (r: Option<&RemoteTextItem>)
        ensures
            (match self {
                RemoteDisplayItem::Text(item) => r == Some(item),
                _ => r is None,
            }),
    {
        if let RemoteDisplayItem::Text(item) = self {
            Some(item)
        } else {
            None
        }
    }
}

/// Everything that can go wrong while applying a diff or producing a
/// frame.  Every condition is local to the operation that raised it;
/// none ends the listener or the render loop.
#[derive(Clone, Copy, PartialEq, Eq, Structural, Debug)]
pub enum SceneError {
    /// A message or field whose shape the decoder rejects.  The
    /// operation mutates nothing beyond the entries already applied.
    MalformedMessage,
    /// A resources or render entry matching none of the recognized
    /// shapes: a protocol violation that aborts the rest of its batch.
    UnknownDiffKind,
    /// A text item or font instance referencing a font key with no
    /// resolved translation.
    MissingFont,
    /// An image resource or display item was reached: a feature stub,
    /// signalled explicitly rather than skipped in silence.
    UnsupportedResource,
    /// A partial update addressed an item of the wrong kind.
    WrongItemKind,
    /// A partial update addressed an index beyond a non-empty scene.
    IndexOutOfRange,
}

} // verus!
