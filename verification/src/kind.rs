//! The closed domain of virtual-terminal object kinds.

use vstd::prelude::*;

verus! {

/// One category of user-interface object in a virtual-terminal object pool.
///
/// The domain is closed and finite: every object in a pool belongs to exactly
/// one of these kinds. The registry in [`crate::registry`] must stay exhaustive
/// over it, so a new variant here fails to compile until the registry gains a
/// matching arm.
#[derive(Clone, Copy, Debug, PartialEq, Eq, Structural)]
pub enum ObjectKind {
    WorkingSet,
    DataMask,
    AlarmMask,
    Container,
    SoftKeyMask,
    Key,
    Button,
    InputBoolean,
    InputString,
    InputNumber,
    InputList,
    OutputString,
    OutputNumber,
    OutputList,
    OutputLine,
    OutputRectangle,
    OutputEllipse,
    OutputPolygon,
    OutputMeter,
    OutputLinearBarGraph,
    OutputArchedBarGraph,
    PictureGraphic,
    NumberVariable,
    StringVariable,
    FontAttributes,
    LineAttributes,
    FillAttributes,
    InputAttributes,
    ObjectPointer,
    Macro,
    AuxiliaryFunctionType1,
    AuxiliaryInputType1,
    AuxiliaryFunctionType2,
    AuxiliaryInputType2,
    AuxiliaryControlDesignatorType2,
    ColourMap,
    GraphicsContext,
    ColourPalette,
    GraphicData,
    WorkingSetSpecialControls,
    ScaledGraphic,
    WindowMask,
    KeyGroup,
    ExtendedInputAttributes,
    ObjectLabelReferenceList,
    ExternalObjectDefinition,
    ExternalReferenceName,
    ExternalObjectPointer,
    Animation,
}

} // verus!
