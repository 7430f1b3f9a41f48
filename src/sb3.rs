//! The records of a project file's manifest, as a loader hands them over.
//! A floating-point quantity is held as its IEEE-754 bit pattern.
use vstd::prelude::*;

verus! {

/// A pair of coordinates.
#[derive(Clone, Copy, Debug, PartialEq, Eq)]
pub struct Vec2<T>(pub T, pub T);

#[derive(Clone, Copy, Debug, PartialEq, Eq, Structural)]
pub struct AssetId {}

#[derive(Clone, Copy, Debug, PartialEq, Eq, Structural)]
pub enum ImageDataFormat {
    PNG,
    SVG,
    JPEG,
    JPG,
    BMP,
    GIF,
}

#[derive(Clone, Copy, Debug, PartialEq, Eq, Structural)]
pub enum AudioDataFormat {
    WAV,
    WAVE,
    MP3,
}

#[derive(Clone, Copy, Debug, PartialEq, Eq, Structural)]
pub enum Number {
    UInt(u64),
    Int(i64),
    Float(u64),
}

#[derive(Clone, Debug, PartialEq, Eq)]
pub enum NumberOrString {
    Number(Number),
    String(String),
}

#[derive(Clone, Debug, PartialEq, Eq)]
pub enum ScalarValue {
    Bool(bool),
    Number(Number),
    String(String),
}

#[derive(Clone, Debug, PartialEq, Eq)]
pub struct Broadcast {
    pub name: String,
}

#[derive(Debug, PartialEq, Eq)]
pub enum Value {
    Scalar(ScalarValue),
    List(Vec<Value>),
    Broadcast(Broadcast),
}

#[derive(Debug, PartialEq, Eq)]
pub struct Variable {
    pub name: String,
    pub value: Value,
    pub on_cloud: bool,
}

#[derive(Clone, Copy, Debug, PartialEq, Eq, Structural)]
pub struct Color {}

#[derive(Clone, Copy, Debug, PartialEq, Eq, Structural)]
pub enum VariableType {
    Scalar,
    List,
    Broadcast,
}

#[derive(Clone, Debug, PartialEq, Eq)]
pub struct VariablePrimitive {
    pub name: String,
    pub kind: VariableType,
    pub id: String,
    pub position: Vec2<u64>,
}

#[derive(Clone, Copy, Debug, PartialEq, Eq, Structural)]
pub struct IndexPrimitive {
    pub value: i32,
}

#[derive(Clone, Debug, PartialEq, Eq)]
pub enum Primitive {
    Num(NumberOrString),
    Color(Color),
    Text(String),
    Variable(VariablePrimitive),
    Index(IndexPrimitive),
}

#[derive(Clone, Copy, Debug, PartialEq, Eq, Structural)]
pub enum BlockCategory {
    Motion,
    Look,
    Sound,
    Event,
    Control,
    Sensing,
    Operator,
    Variable,
    Block,
}

/// An opcode's number within its category.
#[derive(Clone, Copy, Debug, PartialEq, Eq, Structural)]
pub struct CategoryOpCode(pub u16);

#[derive(Clone, Copy, Debug, PartialEq, Eq, Structural)]
pub struct OpCode {
    pub category: BlockCategory,
    pub op_code: CategoryOpCode,
}

#[derive(Clone, Copy, Debug, PartialEq, Eq, Structural)]
pub enum Shadow {
    UnObscured,
    NoShadow,
    Obscured,
}

#[derive(Clone, Debug, PartialEq, Eq)]
pub struct Input {
    pub shadow: Shadow,
    pub args: Vec<Primitive>,
}

#[derive(Clone, Copy, Debug, PartialEq, Eq, Structural)]
pub struct Field {}

#[derive(Clone, Copy, Debug, PartialEq, Eq, Structural)]
pub enum VideoState {
    On,
    Off,
    OnFlipped,
}

#[derive(Clone, Copy, Debug, PartialEq, Eq, Structural)]
pub enum RotationStyle {
    AllAround,
    DontRotate,
    LeftRight,
}

#[derive(Clone, Debug, PartialEq, Eq)]
pub struct SemVer {
    pub major: u32,
    pub minor: u32,
    pub patch: String,
}

#[derive(Clone, Debug, PartialEq, Eq)]
pub struct Meta {
    pub version: SemVer,
    pub vm: SemVer,
    pub user_agent: String,
}

/// An asset and where its data lies: `file` names the archive member.
#[derive(Clone, Debug, PartialEq, Eq)]
pub struct Asset<DataFormat> {
    pub asset_id: AssetId,
    pub data_format: DataFormat,
    pub name: String,
    pub file: String,
}

#[derive(Clone, Debug, PartialEq, Eq)]
pub struct Costume {
    pub asset: Asset<ImageDataFormat>,
    pub bitmap_resolution: u32,
    pub rotation_center: Vec2<u64>,
}

#[derive(Clone, Debug, PartialEq, Eq)]
pub struct Sound {
    pub asset: Asset<AudioDataFormat>,
    pub rate: u32,
    pub sample_count: u32,
}

/// A block of a target; `next` and `parent` are positions in the target's
/// blocks, and inputs and fields are keyed by name.
#[derive(Clone, Debug, PartialEq, Eq)]
pub struct Block {
    pub op_code: OpCode,
    pub next: Option<usize>,
    pub parent: Option<usize>,
    pub comment: Option<String>,
    pub inputs: Vec<(String, Input)>,
    pub fields: Vec<(String, Field)>,
    pub top_level: bool,
    pub shadow: bool,
    pub position: Vec2<u64>,
}

/// A comment, attached to the block at a position of the target's blocks.
#[derive(Clone, Debug, PartialEq, Eq)]
pub struct Comment {
    pub block: Option<usize>,
    pub text: String,
    pub minimized: bool,
    pub position: Vec2<u64>,
}

/// What the stage and sprites share; `current_costume` is a position in
/// `costumes`.
#[derive(Debug, PartialEq, Eq)]
pub struct Target {
    pub current_costume: usize,
    pub blocks: Vec<Block>,
    pub variables: Vec<Variable>,
    pub comments: Vec<Comment>,
    pub costumes: Vec<Costume>,
    pub sounds: Vec<Sound>,
    pub volume: u64,
}

#[derive(Debug, PartialEq, Eq)]
pub struct Stage {
    pub target: Target,
    pub tempo: u64,
    pub video_transparency: u64,
    pub video_state: VideoState,
}

#[derive(Debug, PartialEq, Eq)]
pub struct Sprite {
    pub target: Target,
    pub name: String,
    pub visible: bool,
    pub position: Vec2<u64>,
    pub size: u64,
    pub direction: u64,
    pub draggable: bool,
    pub rotation_style: RotationStyle,
    pub layer_order: u32,
}

#[derive(Debug, PartialEq, Eq)]
pub struct Targets {
    pub stage: Stage,
    pub sprites: Vec<Sprite>,
}

#[derive(Debug, PartialEq, Eq)]
pub struct Project {
    pub targets: Targets,
    pub meta: Meta,
}

} // verus!
