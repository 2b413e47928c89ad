//! Inert classification data of the archive format: language codes, known
//! file signatures (FourCC values), file-type tags, entry flag values, and
//! the passive record layouts of individual resource formats. None of these
//! drive the decoding logic.

use vstd::prelude::*;

verus! {

/// Language codes of localized archive content.
#[derive(Clone, Copy, Debug, PartialEq, Eq, Structural)]
pub enum LanguageType {

    English,
    Korean,
    French,
    German,
    Spanish,
    Chinese,
}

/// Known file signatures; each name stands for a fixed magic value.
#[derive(Clone, Copy, Debug, PartialEq, Eq, Structural)]
pub enum FourCC {

    // Offset 0
    FccAtex,
    FccAttx,
    FccAtec,
    FccAtep,
    FccAteu,
    FccAtet,
    Fcc3dcx,
    FccDxt,
    FccDds,
    FccStrs,
    FccAsnd,
    FccRiff, // resource interchange file format
    FccTtf, // files with this signature seems to be ttf but it is Embedded OpenType fonts with ttf header
    FccOggS,
    FccArap, // relate to temp folder name of CoherentUI
    FccCtex, // DXT5 compressed texture, custom format.

    // Texture codec
    FccDxt1,
    FccDxt2,
    FccDxt3,
    FccDxt4,
    FccDxt5,
    FccDxtn,
    FccDxtl,
    FccDxta,
    FccR32f,

    // RIFF FourCC
    FccWebp,

    // PF FourCC
    FccArmf,
    FccAsndPf,
    FccAbnk,
    FccAbix,
    FccAmsp,
    FccCdhs,
    FccCinp,
    FccCntc,
    FccModl,
    FccGeom,
    FccDeps,
    FccEula,
    FccHvkC,
    FccLocl, // store config, e-mail and hashed password
    FccMapc,
    FccMpsd,
    FccPimg,
    FccAmat,
    FccAnic,
    FccEmoc,
    FccPrlt,
    FccCmpc,
    FccTxtm,
    FccTxtV,
    FccTxtv,
    FccPng,
    FccCmaC,
    FccMMet,
    FccAfnt,

    // Not quite FourCC
    FccMz, // Executable or Dynamic Link Library
    FccPf,
    FccMp3, // MPEG-1 Layer 3
    FccJpeg,
    FccId3, // MP3 with an ID3v2 container
    FccBink2, // Bink 2 video
    FccUtf8, // UTF-8 encoding
}

impl FourCC {
    /// The fixed value that this name stands for in the archive format.
    pub open spec fn spec_code(self) -> u32 {
        match self {
            FourCC::FccAtex => 0x58455441,
            FourCC::FccAttx => 0x58545441,
            FourCC::FccAtec => 0x43455441,
            FourCC::FccAtep => 0x50455441,
            FourCC::FccAteu => 0x55455441,
            FourCC::FccAtet => 0x54455441,
            FourCC::Fcc3dcx => 0x58434433,
            FourCC::FccDxt => 0x00545844,
            FourCC::FccDds => 0x20534444,
            FourCC::FccStrs => 0x73727473,
            FourCC::FccAsnd => 0x646e7361,
            FourCC::FccRiff => 0x46464952,
            FourCC::FccTtf => 0x00000100,
            FourCC::FccOggS => 0x5367674f,
            FourCC::FccArap => 0x50415241,
            FourCC::FccCtex => 0x58455443,
            FourCC::FccDxt1 => 0x31545844,
            FourCC::FccDxt2 => 0x32545844,
            FourCC::FccDxt3 => 0x33545844,
            FourCC::FccDxt4 => 0x34545844,
            FourCC::FccDxt5 => 0x35545844,
            FourCC::FccDxtn => 0x4e545844,
            FourCC::FccDxtl => 0x4c545844,
            FourCC::FccDxta => 0x41545844,
            FourCC::FccR32f => 0x00000072,
            FourCC::FccWebp => 0x50424557,
            FourCC::FccArmf => 0x464d5241,
            FourCC::FccAsndPf => 0x444e5341,
            FourCC::FccAbnk => 0x4b4e4241,
            FourCC::FccAbix => 0x58494241,
            FourCC::FccAmsp => 0x50534d41,
            FourCC::FccCdhs => 0x53484443,
            FourCC::FccCinp => 0x504e4943,
            FourCC::FccCntc => 0x63746e63,
            FourCC::FccModl => 0x4c444f4d,
            FourCC::FccGeom => 0x4d4f4547,
            FourCC::FccDeps => 0x53504544,
            FourCC::FccEula => 0x616c7565,
            FourCC::FccHvkC => 0x436b7668,
            FourCC::FccLocl => 0x6c636f6c,
            FourCC::FccMapc => 0x6370616d,
            FourCC::FccMpsd => 0x6473706d,
            FourCC::FccPimg => 0x474d4950,
            FourCC::FccAmat => 0x54414d41,
            FourCC::FccAnic => 0x63696e61,
            FourCC::FccEmoc => 0x636f6d65,
            FourCC::FccPrlt => 0x746c7270,
            FourCC::FccCmpc => 0x63706d63,
            FourCC::FccTxtm => 0x6d747874,
            FourCC::FccTxtV => 0x56747874,
            FourCC::FccTxtv => 0x76747874,
            FourCC::FccPng => 0x474e5089,
            FourCC::FccCmaC => 0x43616d63,
            FourCC::FccMMet => 0x74654d6d,
            FourCC::FccAfnt => 0x544e4641,
            FourCC::FccMz => 0x5a4d,
            FourCC::FccPf => 0x4650,
            FourCC::FccMp3 => 0xfbff,
            FourCC::FccJpeg => 0xffd8ff,
            FourCC::FccId3 => 0x334449,
            FourCC::FccBink2 => 0x32424b,
            FourCC::FccUtf8 => 0xbfbbef,
        }
    }

    pub fn code(self) -> (r: u32)
        ensures
            r == self.spec_code(),
    {
        match self {
            FourCC::FccAtex => 0x58455441,
            FourCC::FccAttx => 0x58545441,
            FourCC::FccAtec => 0x43455441,
            FourCC::FccAtep => 0x50455441,
            FourCC::FccAteu => 0x55455441,
            FourCC::FccAtet => 0x54455441,
            FourCC::Fcc3dcx => 0x58434433,
            FourCC::FccDxt => 0x00545844,
            FourCC::FccDds => 0x20534444,
            FourCC::FccStrs => 0x73727473,
            FourCC::FccAsnd => 0x646e7361,
            FourCC::FccRiff => 0x46464952,
            FourCC::FccTtf => 0x00000100,
            FourCC::FccOggS => 0x5367674f,
            FourCC::FccArap => 0x50415241,
            FourCC::FccCtex => 0x58455443,
            FourCC::FccDxt1 => 0x31545844,
            FourCC::FccDxt2 => 0x32545844,
            FourCC::FccDxt3 => 0x33545844,
            FourCC::FccDxt4 => 0x34545844,
            FourCC::FccDxt5 => 0x35545844,
            FourCC::FccDxtn => 0x4e545844,
            FourCC::FccDxtl => 0x4c545844,
            FourCC::FccDxta => 0x41545844,
            FourCC::FccR32f => 0x00000072,
            FourCC::FccWebp => 0x50424557,
            FourCC::FccArmf => 0x464d5241,
            FourCC::FccAsndPf => 0x444e5341,
            FourCC::FccAbnk => 0x4b4e4241,
            FourCC::FccAbix => 0x58494241,
            FourCC::FccAmsp => 0x50534d41,
            FourCC::FccCdhs => 0x53484443,
            FourCC::FccCinp => 0x504e4943,
            FourCC::FccCntc => 0x63746e63,
            FourCC::FccModl => 0x4c444f4d,
            FourCC::FccGeom => 0x4d4f4547,
            FourCC::FccDeps => 0x53504544,
            FourCC::FccEula => 0x616c7565,
            FourCC::FccHvkC => 0x436b7668,
            FourCC::FccLocl => 0x6c636f6c,
            FourCC::FccMapc => 0x6370616d,
            FourCC::FccMpsd => 0x6473706d,
            FourCC::FccPimg => 0x474d4950,
            FourCC::FccAmat => 0x54414d41,
            FourCC::FccAnic => 0x63696e61,
            FourCC::FccEmoc => 0x636f6d65,
            FourCC::FccPrlt => 0x746c7270,
            FourCC::FccCmpc => 0x63706d63,
            FourCC::FccTxtm => 0x6d747874,
            FourCC::FccTxtV => 0x56747874,
            FourCC::FccTxtv => 0x76747874,
            FourCC::FccPng => 0x474e5089,
            FourCC::FccCmaC => 0x43616d63,
            FourCC::FccMMet => 0x74654d6d,
            FourCC::FccAfnt => 0x544e4641,
            FourCC::FccMz => 0x5a4d,
            FourCC::FccPf => 0x4650,
            FourCC::FccMp3 => 0xfbff,
            FourCC::FccJpeg => 0xffd8ff,
            FourCC::FccId3 => 0x334449,
            FourCC::FccBink2 => 0x32424b,
            FourCC::FccUtf8 => 0xbfbbef,
        }
    }
}

/// Classification tags for the file formats an archive may hold.
#[derive(Clone, Copy, Debug, PartialEq, Eq, Structural)]
pub enum AnetFileType {

    AnftUnknown, //< Unknown format.

    // Texture types
    AnftTextureStart, //< Values in between this and ANFT_TextureEnd are texture types.
    AnftAtex, //< ATEX texture, generic use.
    AnftAttx, //< ATTX texture, used for terrain (in GW1).
    AnftAtec, //< ATEC texture, unknown use.
    AnftAtep, //< ATEP texture, used for maps.
    AnftAteu, //< ATEU texture, used for UI.
    AnftAtet, //< ATET texture, unknown use.
    AnftCtex, //< CTEX texture, unknown use.
    AnftDds, //< DDS texture, not an ANet specific format.
    AnftJpeg, //< JPEG Image, not an ANet specific format.
    AnftWebp, //< WebP Image, not an ANet specific format.
    AnftPng, //< PNG Image, not an ANet specific format.
    AnftTextureEnd, //< Values in between this and ANFT_TextureStart are texture types.

    // Sound
    AnftSoundStart, //< Values in between this and ANFT_SoundEnd are sound types.
    AnftSound, //< Sound file of unknown type.
    AnftAsndMp3, //< asnd MP3 format file.
    AnftAsndOgg, //< asnd OGG format file.
    AnftPackedMp3, //< PF packed MP3 file.
    AnftPackedOgg, //< PF packed Ogg file.
    AnftOgg, //< Uncompressed Ogg file.
    AnftMp3, //< Uncompressed MP3 file.
    AnftSoundEnd, //< Values in between this and ANFT_SoundStart are sound types.

    // RIFF
    AnftRiff, //< Resource Interchange File Format container.

    // PF
    AnftPf, //< PF file of unknown type.
    AnftManifest, //< Manifest file.
    AnftTextPackManifest, //< TextPack Manifest file.
    AnftTextPackVariant, //< TextPack Variant file.
    AnftTextPackVoices, //< TextPack Voices file.
    AnftBank, //< Soundbank file, contains other files.
    AnftBankIndex, //< Soundbank files index
    AnftModel, //< Model file.
    AnftModelCollisionManifest, //< Model collision manifest file.
    AnftDependencyTable, //< Dependency table.
    AnftEula, //< EULA file.
    AnftGameContent, //< Game content file.
    AnftGameContentPortalManifest, //< Game content portal Manifest file.
    AnftMapCollision, //< Map collision properties.
    AnftMapParam, //< Map file.
    AnftMapShadow, //< Map shadow file.
    AnftMapMetadata, //< Map metadata file.
    AnftPagedImageTable, //< Paged Image Table file.
    AnftMaterial, //< Compiled DirectX 9 shader.
    AnftComposite, //< Composite data.
    AnftCinematic, //< Cinematic data.
    AnftAnimSequences, //< Animation Sequences data.
    AnftEmoteAnimation, //< Emote animation data.
    AnftAudioScript, //< Audio script file.
    AnftShaderCache, //< Shader cache file.
    AnftConfig, //< Configuration file.

    // Binary
    AnftBinary, //< Binary file of unknown type.
    AnftDll, //< DLL file.
    AnftExe, //< Executable file.

    // Misc
    AnftStringFile, //< Strings file.
    AnftFontFile, //< Font file.
    AnftBitmapFontFile, //< Bitmap font file.
    AnftBink2video, //< Bink2 video file.
    AnftArap,
    AnftUtf8, //< UTF-8 encoding.
    AnftText, //< Text file.
}

/// Values of an MFT entry's compression_flag field.
#[derive(Clone, Copy, Debug, PartialEq, Eq, Structural)]
pub enum AnetCompressionFlags {

    AncfUncompressed, //< File is uncompressed.
    AncfCompressed, //< File is compressed.
}

impl AnetCompressionFlags {
    /// The fixed value that this name stands for in the archive format.
    pub open spec fn spec_code(self) -> u16 {
        match self {
            AnetCompressionFlags::AncfUncompressed => 0,
            AnetCompressionFlags::AncfCompressed => 8,
        }
    }

    pub fn code(self) -> (r: u16)
        ensures
            r == self.spec_code(),
    {
        match self {
            AnetCompressionFlags::AncfUncompressed => 0,
            AnetCompressionFlags::AncfCompressed => 8,
        }
    }
}

/// Values of an MFT entry's entry_flag field; bit 0 marks an entry in use.
#[derive(Clone, Copy, Debug, PartialEq, Eq, Structural)]
pub enum AnetMftEntryFlags {

    AnmefNone, //< No flags set.
    AnmefInUse, //< Entry is in use.
}

impl AnetMftEntryFlags {
    /// The fixed value that this name stands for in the archive format.
    pub open spec fn spec_code(self) -> u16 {
        match self {
            AnetMftEntryFlags::AnmefNone => 0,
            AnetMftEntryFlags::AnmefInUse => 1,
        }
    }

    pub fn code(self) -> (r: u16)
        ensures
            r == self.spec_code(),
    {
        match self {
            AnetMftEntryFlags::AnmefNone => 0,
            AnetMftEntryFlags::AnmefInUse => 1,
        }
    }
}

/// Bit flags describing the vertex layout of model geometry.
#[derive(Clone, Copy, Debug, PartialEq, Eq, Structural)]
pub enum AnetFlexibleVertexFormat {

    AnfvfPosition, //< 12 bytes. Position as three 32-bit floats in the order x, y, z.
    AnfvfWeights, //< 4 bytes. Contains bone weights.
    AnfvfGroup, //< 4 bytes. Related to bone weights.
    AnfvfNormal, //< 12 bytes. Normal as three 32-bit floats in the order x, y, z.
    AnfvfColor, //< 4 bytes. Vertex color.
    AnfvfTangent, //< 12 bytes. Tangent as three 32-bit floats in the order x, y, z.
    AnfvfBitangent, //< 12 bytes. Bitangent as three 32-bit floats in the order x, y, z.
    AnfvfTangentFrame, //< 12 bytes.
    AnfvfUv32mask, //< 8 bytes for each set bit. Contains UV-coords as two 32-bit floats in the order u, v.
    AnfvfUv16mask, //< 4 bytes for each set bit. Contains UV-coords as two 16-bit floats in the order u, v.
    AnfvfUnknown1, //< 48 bytes. Unknown data.
    AnfvfUnknown2, //< 4 bytes. Unknown data.
    AnfvfUnknown3, //< 4 bytes. Unknown data.
    AnfvfUnknown4, //< 16 bytes. Unknown data.
    AnfvfPositionCompressed, //< 6 bytes. Position as three 16-bit floats in the order x, y, z.
    AnfvfUnknown5, //< 12 bytes. Unknown data.
}

impl AnetFlexibleVertexFormat {
    /// The fixed value that this name stands for in the archive format.
    pub open spec fn spec_code(self) -> u32 {
        match self {
            AnetFlexibleVertexFormat::AnfvfPosition => 0x00000001,
            AnetFlexibleVertexFormat::AnfvfWeights => 0x00000002,
            AnetFlexibleVertexFormat::AnfvfGroup => 0x00000004,
            AnetFlexibleVertexFormat::AnfvfNormal => 0x00000008,
            AnetFlexibleVertexFormat::AnfvfColor => 0x00000010,
            AnetFlexibleVertexFormat::AnfvfTangent => 0x00000020,
            AnetFlexibleVertexFormat::AnfvfBitangent => 0x00000040,
            AnetFlexibleVertexFormat::AnfvfTangentFrame => 0x00000080,
            AnetFlexibleVertexFormat::AnfvfUv32mask => 0x0000ff00,
            AnetFlexibleVertexFormat::AnfvfUv16mask => 0x00ff0000,
            AnetFlexibleVertexFormat::AnfvfUnknown1 => 0x01000000,
            AnetFlexibleVertexFormat::AnfvfUnknown2 => 0x02000000,
            AnetFlexibleVertexFormat::AnfvfUnknown3 => 0x04000000,
            AnetFlexibleVertexFormat::AnfvfUnknown4 => 0x08000000,
            AnetFlexibleVertexFormat::AnfvfPositionCompressed => 0x10000000,
            AnetFlexibleVertexFormat::AnfvfUnknown5 => 0x20000000,
        }
    }

    pub fn code(self) -> (r: u32)
        ensures
            r == self.spec_code(),
    {
        match self {
            AnetFlexibleVertexFormat::AnfvfPosition => 0x00000001,
            AnetFlexibleVertexFormat::AnfvfWeights => 0x00000002,
            AnetFlexibleVertexFormat::AnfvfGroup => 0x00000004,
            AnetFlexibleVertexFormat::AnfvfNormal => 0x00000008,
            AnetFlexibleVertexFormat::AnfvfColor => 0x00000010,
            AnetFlexibleVertexFormat::AnfvfTangent => 0x00000020,
            AnetFlexibleVertexFormat::AnfvfBitangent => 0x00000040,
            AnetFlexibleVertexFormat::AnfvfTangentFrame => 0x00000080,
            AnetFlexibleVertexFormat::AnfvfUv32mask => 0x0000ff00,
            AnetFlexibleVertexFormat::AnfvfUv16mask => 0x00ff0000,
            AnetFlexibleVertexFormat::AnfvfUnknown1 => 0x01000000,
            AnetFlexibleVertexFormat::AnfvfUnknown2 => 0x02000000,
            AnetFlexibleVertexFormat::AnfvfUnknown3 => 0x04000000,
            AnetFlexibleVertexFormat::AnfvfUnknown4 => 0x08000000,
            AnetFlexibleVertexFormat::AnfvfPositionCompressed => 0x10000000,
            AnetFlexibleVertexFormat::AnfvfUnknown5 => 0x20000000,
        }
    }
}

#[derive(Debug, Default)]
pub struct AnetFileReference {
    pub parts: Vec<u8>,
}

#[derive(Debug, Default)]
pub struct AnetAtexHeader {
    pub identifier: Vec<u8>,
    pub identifier_integer: u32,
    pub format: u8,
    pub format_integer: u32,
    pub width: u16,
    pub height: u16,
}

#[derive(Debug, Default)]
pub struct AnetPfHeader {
    pub identifier: Vec<u8>,
    pub unknown_field: u16,
    pub unknown_field_2: u16,
    pub file_type: Vec<u8>,
    pub file_type_integer: u32,
}

#[derive(Debug, Default)]
pub struct AnetPfChunkHeader {
    pub chunk_type: Vec<u8>,
    pub chunk_type_integer: u32,
    pub chunk_data_size: u32,
    pub chunk_version: u16,
    pub chunk_header_size: u16,
    pub offset_table_offset: u32,
}

#[derive(Debug, Default)]
pub struct AnetModelMaterialPermutations {
    pub token: u64,
    pub material_count: u32,
    pub material_offset: i32,
}

#[derive(Debug, Default)]
pub struct AnetModelMaterialData {
    pub token: u64,
    pub material_id: u32,
    pub material_file_offset: i32,
    pub material_flags: u32,
    pub sort_order: u32,
    pub texture_count: u32,
    pub texture_offset: i32,
    pub constants_count: u32,
    pub constants_offset: i32,
    pub mat_const_links_count: u32,
    pub mat_const_links_offset: u32,
    pub uv_trans_links_count: u32,
    pub uv_trans_links_offset: u32,
    pub tex_transforms4_count: u32,
    pub tex_transforms4_offset: u32,
    pub tex_coord_count: u8,
}

#[derive(Debug, Default)]
pub struct AnetModelTextureReference {
    pub offset_to_file_reference: i32,
    pub texture_flags: u32,
    pub token: u64,
    pub blit_id: u64,
    pub uv_anim_id: u32,
    pub uv_ps_input_index: u8,
}

} // verus!
