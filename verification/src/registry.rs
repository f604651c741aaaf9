//! The display-name registry: a total mapping from each object kind to its
//! canonical human-readable label.

use vstd::prelude::*;

use crate::kind::ObjectKind;

verus! {

/// The canonical label of each object kind, as a sequence of characters.
///
/// This is the mathematical content of the registry: one arm per kind, no
/// default arm, so the mapping is total by construction and a new kind cannot
/// silently fall through to a placeholder.
pub open spec fn display_name_seq(kind: ObjectKind) -> Seq<char> {
    match kind {
        ObjectKind::WorkingSet => "Working Set"@,
        ObjectKind::DataMask => "Data Mask"@,
        ObjectKind::AlarmMask => "Alarm Mask"@,
        ObjectKind::Container => "Container"@,
        ObjectKind::SoftKeyMask => "Soft Key Mask"@,
        ObjectKind::Key => "Key"@,
        ObjectKind::Button => "Button"@,
        ObjectKind::InputBoolean => "Input Boolean"@,
        ObjectKind::InputString => "Input String"@,
        ObjectKind::InputNumber => "Input Number"@,
        ObjectKind::InputList => "Input List"@,
        ObjectKind::OutputString => "Output String"@,
        ObjectKind::OutputNumber => "Output Number"@,
        ObjectKind::OutputList => "Output List"@,
        ObjectKind::OutputLine => "Line"@,
        ObjectKind::OutputRectangle => "Rectangle"@,
        ObjectKind::OutputEllipse => "Ellipse"@,
        ObjectKind::OutputPolygon => "Polygon"@,
        ObjectKind::OutputMeter => "Meter"@,
        ObjectKind::OutputLinearBarGraph => "Linear Bar"@,
        ObjectKind::OutputArchedBarGraph => "Arched Bar"@,
        ObjectKind::PictureGraphic => "Picture"@,
        ObjectKind::NumberVariable => "Number Variable"@,
        ObjectKind::StringVariable => "String Variable"@,
        ObjectKind::FontAttributes => "Font Attributes"@,
        ObjectKind::LineAttributes => "Line Attributes"@,
        ObjectKind::FillAttributes => "Fill Attributes"@,
        ObjectKind::InputAttributes => "Input Attributes"@,
        ObjectKind::ObjectPointer => "Object Pointer"@,
        ObjectKind::Macro => "Macro"@,
        ObjectKind::AuxiliaryFunctionType1 => "Aux Function v1"@,
        ObjectKind::AuxiliaryInputType1 => "Aux Input v1"@,
        ObjectKind::AuxiliaryFunctionType2 => "Aux Function v2"@,
        ObjectKind::AuxiliaryInputType2 => "Aux Input v2"@,
        ObjectKind::AuxiliaryControlDesignatorType2 => "Aux Control v2"@,
        ObjectKind::ColourMap => "Colour Map"@,
        ObjectKind::GraphicsContext => "Graphics Context"@,
        ObjectKind::ColourPalette => "Colour Palette"@,
        ObjectKind::GraphicData => "Graphic Data"@,
        ObjectKind::WorkingSetSpecialControls => "Special Controls"@,
        ObjectKind::ScaledGraphic => "Scaled Graphic"@,
        ObjectKind::WindowMask => "Window Mask"@,
        ObjectKind::KeyGroup => "Key Group"@,
        ObjectKind::ExtendedInputAttributes => "Extended Input Attributes"@,
        ObjectKind::ObjectLabelReferenceList => "Label Reference List"@,
        ObjectKind::ExternalObjectDefinition => "External Object Definition"@,
        ObjectKind::ExternalReferenceName => "External Reference Name"@,
        ObjectKind::ExternalObjectPointer => "External Object Pointer"@,
        ObjectKind::Animation => "Animation"@,
    }
}

/// Get a user-friendly name for an object kind.
///
/// Total over the whole domain: exactly one arm per kind, matching
/// [`display_name_seq`] literal for literal.
pub fn get_object_type_name(object_type: ObjectKind) -> (r: &'static str)
    ensures
        r@ == display_name_seq(object_type),
        r@.len() > 0,
{
    proof {
        lemma_display_name_nonempty(object_type);
    }
    match object_type {
        ObjectKind::WorkingSet => "Working Set",
        ObjectKind::DataMask => "Data Mask",
        ObjectKind::AlarmMask => "Alarm Mask",
        ObjectKind::Container => "Container",
        ObjectKind::SoftKeyMask => "Soft Key Mask",
        ObjectKind::Key => "Key",
        ObjectKind::Button => "Button",
        ObjectKind::InputBoolean => "Input Boolean",
        ObjectKind::InputString => "Input String",
        ObjectKind::InputNumber => "Input Number",
        ObjectKind::InputList => "Input List",
        ObjectKind::OutputString => "Output String",
        ObjectKind::OutputNumber => "Output Number",
        ObjectKind::OutputList => "Output List",
        ObjectKind::OutputLine => "Line",
        ObjectKind::OutputRectangle => "Rectangle",
        ObjectKind::OutputEllipse => "Ellipse",
        ObjectKind::OutputPolygon => "Polygon",
        ObjectKind::OutputMeter => "Meter",
        ObjectKind::OutputLinearBarGraph => "Linear Bar",
        ObjectKind::OutputArchedBarGraph => "Arched Bar",
        ObjectKind::PictureGraphic => "Picture",
        ObjectKind::NumberVariable => "Number Variable",
        ObjectKind::StringVariable => "String Variable",
        ObjectKind::FontAttributes => "Font Attributes",
        ObjectKind::LineAttributes => "Line Attributes",
        ObjectKind::FillAttributes => "Fill Attributes",
        ObjectKind::InputAttributes => "Input Attributes",
        ObjectKind::ObjectPointer => "Object Pointer",
        ObjectKind::Macro => "Macro",
        ObjectKind::AuxiliaryFunctionType1 => "Aux Function v1",
        ObjectKind::AuxiliaryInputType1 => "Aux Input v1",
        ObjectKind::AuxiliaryFunctionType2 => "Aux Function v2",
        ObjectKind::AuxiliaryInputType2 => "Aux Input v2",
        ObjectKind::AuxiliaryControlDesignatorType2 => "Aux Control v2",
        ObjectKind::ColourMap => "Colour Map",
        ObjectKind::GraphicsContext => "Graphics Context",
        ObjectKind::ColourPalette => "Colour Palette",
        ObjectKind::GraphicData => "Graphic Data",
        ObjectKind::WorkingSetSpecialControls => "Special Controls",
        ObjectKind::ScaledGraphic => "Scaled Graphic",
        ObjectKind::WindowMask => "Window Mask",
        ObjectKind::KeyGroup => "Key Group",
        ObjectKind::ExtendedInputAttributes => "Extended Input Attributes",
        ObjectKind::ObjectLabelReferenceList => "Label Reference List",
        ObjectKind::ExternalObjectDefinition => "External Object Definition",
        ObjectKind::ExternalReferenceName => "External Reference Name",
        ObjectKind::ExternalObjectPointer => "External Object Pointer",
        ObjectKind::Animation => "Animation",
    }
}

/// Totality of the registry: every kind has a non-empty display name.
pub proof fn lemma_display_name_nonempty(kind: ObjectKind)
    ensures
        display_name_seq(kind).len() > 0,
{
    reveal_strlit("Working Set");
    reveal_strlit("Data Mask");
    reveal_strlit("Alarm Mask");
    reveal_strlit("Container");
    reveal_strlit("Soft Key Mask");
    reveal_strlit("Key");
    reveal_strlit("Button");
    reveal_strlit("Input Boolean");
    reveal_strlit("Input String");
    reveal_strlit("Input Number");
    reveal_strlit("Input List");
    reveal_strlit("Output String");
    reveal_strlit("Output Number");
    reveal_strlit("Output List");
    reveal_strlit("Line");
    reveal_strlit("Rectangle");
    reveal_strlit("Ellipse");
    reveal_strlit("Polygon");
    reveal_strlit("Meter");
    reveal_strlit("Linear Bar");
    reveal_strlit("Arched Bar");
    reveal_strlit("Picture");
    reveal_strlit("Number Variable");
    reveal_strlit("String Variable");
    reveal_strlit("Font Attributes");
    reveal_strlit("Line Attributes");
    reveal_strlit("Fill Attributes");
    reveal_strlit("Input Attributes");
    reveal_strlit("Object Pointer");
    reveal_strlit("Macro");
    reveal_strlit("Aux Function v1");
    reveal_strlit("Aux Input v1");
    reveal_strlit("Aux Function v2");
    reveal_strlit("Aux Input v2");
    reveal_strlit("Aux Control v2");
    reveal_strlit("Colour Map");
    reveal_strlit("Graphics Context");
    reveal_strlit("Colour Palette");
    reveal_strlit("Graphic Data");
    reveal_strlit("Special Controls");
    reveal_strlit("Scaled Graphic");
    reveal_strlit("Window Mask");
    reveal_strlit("Key Group");
    reveal_strlit("Extended Input Attributes");
    reveal_strlit("Label Reference List");
    reveal_strlit("External Object Definition");
    reveal_strlit("External Reference Name");
    reveal_strlit("External Object Pointer");
    reveal_strlit("Animation");
}

} // verus!
