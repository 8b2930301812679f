//! Textures: a handle of the backend and how the texture is sampled.

use vstd::prelude::*;
use crate::command::{views, Command, CommandView, FilterMode, WrapMode};
use crate::decode::{decode, DecodedImage};

verus! {

/// A texture that the backend holds. It is made once, from decoded pixels,
/// and does not change afterwards.
pub struct Texture {
    id: u32,
    wrap: WrapMode,
    min_filter: FilterMode,
    mag_filter: FilterMode,
}

impl Texture {
    /// The backend's handle of the texture.
    pub closed spec fn id(&self) -> u32 {
        self.id
    }

    /// How the texture continues beyond its edges, along both axes.
    pub closed spec fn wrap(&self) -> WrapMode {
        self.wrap
    }

    /// The filter used when the texture is drawn smaller than it is.
    pub closed spec fn min_filter(&self) -> FilterMode {
        self.min_filter
    }

    /// The filter used when the texture is drawn larger than it is.
    pub closed spec fn mag_filter(&self) -> FilterMode {
        self.mag_filter
    }

    /// What the backend has to do to fill the texture `id`: bind it, set its
    /// wrap mode and filters, upload the pixels, derive the smaller levels.
    pub open spec fn upload_commands<T>(
        id: u32,
        width: u32,
        height: u32,
        pixels: Seq<u8>,
        wrap: WrapMode,
        min_filter: FilterMode,
        mag_filter: FilterMode,
    ) -> Seq<CommandView<T>> {
        seq![
            CommandView::BindTexture { texture: id },
            CommandView::SetWrapS { mode: wrap },
            CommandView::SetWrapT { mode: wrap },
            CommandView::SetMinFilter { mode: min_filter },
            CommandView::SetMagFilter { mode: mag_filter },
            CommandView::TexImage { width, height, pixels },
            CommandView::GenerateMipmap,
        ]
    }

    /// The backend's handle of the texture.
    pub fn get_id(&self) -> (id: u32)
        ensures
            id == self.id(),
    {
        self.id
    }

    /// The wrap mode that the texture was made with.
    pub fn get_wrap(&self) -> (mode: WrapMode)
        ensures
            mode == self.wrap(),
    {
        self.wrap
    }

    /// The minification filter that the texture was made with.
    pub fn get_min_filter(&self) -> (mode: FilterMode)
        ensures
            mode == self.min_filter(),
    {
        self.min_filter
    }

    /// The magnification filter that the texture was made with.
    pub fn get_mag_filter(&self) -> (mode: FilterMode)
        ensures
            mode == self.mag_filter(),
    {
        self.mag_filter
    }

    /// The texture with handle `id`, and the commands that fill it with rows
    /// of RGBA pixels. The pixels are taken as they are: neither their number
    /// nor the dimensions are examined.
    pub fn from_pixels<T>(
        id: u32,
        width: u32,
        height: u32,
        pixels: Vec<u8>,
        wrap: WrapMode,
        min_filter: FilterMode,
        mag_filter: FilterMode,
    ) -> (made: (Texture, Vec<Command<T>>))
        ensures
            made.0.id() == id,
            made.0.wrap() == wrap,
            made.0.min_filter() == min_filter,
            made.0.mag_filter() == mag_filter,
            views(made.1@) == Self::upload_commands::<T>(
                id,
                width,
                height,
                pixels@,
                wrap,
                min_filter,
                mag_filter,
            ),
    {
        let ghost raw = pixels@;
        let mut commands: Vec<Command<T>> = Vec::new();
        commands.push(Command::BindTexture { texture: id });
        commands.push(Command::SetWrapS { mode: wrap });
        commands.push(Command::SetWrapT { mode: wrap });
        commands.push(Command::SetMinFilter { mode: min_filter });
        commands.push(Command::SetMagFilter { mode: mag_filter });
        commands.push(Command::TexImage { width, height, pixels });
        commands.push(Command::GenerateMipmap);
        proof {
            assert(views(commands@) =~= Self::upload_commands::<T>(
                id,
                width,
                height,
                raw,
                wrap,
                min_filter,
                mag_filter,
            ));
        }
        (Texture { id, wrap, min_filter, mag_filter }, commands)
    }

    /// What becomes of the texture object `id` once the decoder has spoken.
    /// A decoded image gives the texture and the commands that fill it; no
    /// image gives no texture and the one command that releases the object,
    /// so that none is left behind.
    pub fn from_decoded<T>(
        id: u32,
        decoded: Option<DecodedImage>,
        wrap: WrapMode,
        min_filter: FilterMode,
        mag_filter: FilterMode,
    ) -> (made: (Option<Texture>, Vec<Command<T>>))
        ensures
            match decoded {
                Some(image) => {
                    &&& made.0 matches Some(texture)
                    &&& texture.id() == id
                    &&& texture.wrap() == wrap
                    &&& texture.min_filter() == min_filter
                    &&& texture.mag_filter() == mag_filter
                    &&& views(made.1@) == Self::upload_commands::<T>(
                        id,
                        image.width,
                        image.height,
                        image.pixels@,
                        wrap,
                        min_filter,
                        mag_filter,
                    )
                },
                None => {
                    &&& made.0 is None
                    &&& views(made.1@) == seq![CommandView::<T>::DeleteTexture { texture: id }]
                },
            },
    {
        match decoded {
            Some(image) => {
                let (texture, commands) = Self::from_pixels(
                    id,
                    image.width,
                    image.height,
                    image.pixels,
                    wrap,
                    min_filter,
                    mag_filter,
                );
                (Some(texture), commands)
            },
            None => {
                let mut commands: Vec<Command<T>> = Vec::new();
                commands.push(Command::DeleteTexture { texture: id });
                proof {
                    assert(views(commands@) =~= seq![
                        CommandView::<T>::DeleteTexture { texture: id },
                    ]);
                }
                (None, commands)
            },
        }
    }

    /// Decodes an image file for the texture object `id`. Where the file
    /// decodes, the result is the texture and the commands that fill it with
    /// the decoded pixels, four bytes for each; where it does not, there is
    /// no texture, and the one command releases the object.
    pub fn from_image_bytes<T>(
        id: u32,
        image: &[u8],
        format: image::ImageFormat,
        wrap: WrapMode,
        min_filter: FilterMode,
        mag_filter: FilterMode,
    ) -> (made: (Option<Texture>, Vec<Command<T>>))
        ensures
            match made.0 {
                Some(texture) => {
                    &&& texture.id() == id
                    &&& texture.wrap() == wrap
                    &&& texture.min_filter() == min_filter
                    &&& texture.mag_filter() == mag_filter
                    &&& exists|width: u32, height: u32, pixels: Seq<u8>|
                        pixels.len() == 4 * width * height && views(made.1@)
                            == #[trigger] Self::upload_commands::<T>(
                            id,
                            width,
                            height,
                            pixels,
                            wrap,
                            min_filter,
                            mag_filter,
                        )
                },
                None => views(made.1@) == seq![CommandView::<T>::DeleteTexture { texture: id }],
            },
    {
        let decoded = decode(image, format);
        let ghost shown = decoded;
        let made = Self::from_decoded(id, decoded, wrap, min_filter, mag_filter);
        proof {
            if let Some(image) = shown {
                assert(views(made.1@) == Self::upload_commands::<T>(
                    id,
                    image.width,
                    image.height,
                    image.pixels@,
                    wrap,
                    min_filter,
                    mag_filter,
                ));
            }
        }
        made
    }

    /// Gives the texture up: the one command that releases it.
    pub fn release<T>(self) -> (commands: Vec<Command<T>>)
        ensures
            views(commands@) == seq![CommandView::<T>::DeleteTexture { texture: self.id() }],
    {
        let mut commands: Vec<Command<T>> = Vec::new();
        commands.push(Command::DeleteTexture { texture: self.id });
        proof {
            assert(views(commands@) =~= seq![
                CommandView::<T>::DeleteTexture { texture: self.id() },
            ]);
        }
        commands
    }
}

} // verus!
