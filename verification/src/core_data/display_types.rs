use vstd::prelude::*;

verus! {

/// A URL
#[derive(Debug, Clone, PartialEq, Eq)]
pub struct Url {
    pub url_value: String,
}

impl Url {
    pub fn new(url: String) -> (made: Self)
        ensures
            made.url_value == url,
    {
        Self { url_value: url }
    }
}

/// Names a projectile asset.
#[derive(Debug, Clone, PartialEq, Eq)]
pub struct ProjectileAddress {
    pub projectile: String,
}

impl ProjectileAddress {
    pub fn new(projectile: String) -> (made: Self)
        ensures
            made.projectile == projectile,
    {
        Self { projectile }
    }
}

/// Names a visual effect asset.
#[derive(Debug, Clone, PartialEq, Eq)]
pub struct EffectAddress {
    pub effect: String,
}

impl EffectAddress {
    pub fn new(effect: String) -> (made: Self)
        ensures
            made.effect == effect,
    {
        Self { effect }
    }
}

/// Names an audio clip asset.
#[derive(Debug, Clone, PartialEq, Eq)]
pub struct AudioClipAddress {
    pub audio_clip: String,
}

impl AudioClipAddress {
    pub fn new(audio_clip: String) -> (made: Self)
        ensures
            made.audio_clip == audio_clip,
    {
        Self { audio_clip }
    }
}

/// Names a texture asset.
#[derive(Debug, Clone, PartialEq, Eq)]
pub struct TextureAddress {
    pub texture: String,
}

impl TextureAddress {
    pub fn new(texture: String) -> (made: Self)
        ensures
            made.texture == texture,
    {
        Self { texture }
    }
}

/// Names a sprite asset.
#[derive(Debug, Clone, PartialEq, Eq)]
pub struct SpriteAddress {
    pub sprite: String,
}

impl SpriteAddress {
    pub fn new(sprite: String) -> (made: Self)
        ensures
            made.sprite == sprite,
    {
        Self { sprite }
    }
}

/// Names a font asset.
#[derive(Debug, Clone, PartialEq, Eq)]
pub struct FontAddress {
    pub font: String,
}

impl FontAddress {
    pub fn new(font: String) -> (made: Self)
        ensures
            made.font == font,
    {
        Self { font }
    }
}

/// A span of time in milliseconds.
#[derive(Debug, Copy, Clone, PartialEq, Eq, Structural)]
pub struct Milliseconds {
    pub milliseconds_value: u64,
}

impl Milliseconds {
    pub fn new(milliseconds_value: u64) -> (made: Self)
        ensures
            made.milliseconds_value == milliseconds_value,
    {
        Self { milliseconds_value }
    }
}

} // verus!
