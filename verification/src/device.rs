//! Device identities: a model tag and a serial, with the canonical text form
//! `<model>-<serial>` that keys a registry entry and names a device in a path.

use crate::error::ParseError;
use crate::sequence::{first_index_of, lemma_first_index_is, lemma_first_index_of};
use crate::text::{find_first, same_text};
use std::str::FromStr;
use vstd::prelude::*;

verus! {

/// The closed set of device models.
#[derive(Debug, Clone, Copy, PartialEq, Eq, Structural)]
pub enum Model {
    IchibuV1,
    IchibuV2,
    LibraV0,
}

impl Model {
    /// The tag under which the model is written in keys and paths.
    pub open spec fn tag(self) -> Seq<char> {
        match self {
            Model::IchibuV1 => "IchibuV1"@,
            Model::IchibuV2 => "IchibuV2"@,
            Model::LibraV0 => "LibraV0"@,
        }
    }

    /// The model that a tag names, if any.
    pub open spec fn of_tag(tag: Seq<char>) -> Option<Model> {
        if tag == "IchibuV1"@ {
            Some(Model::IchibuV1)
        } else if tag == "IchibuV2"@ {
            Some(Model::IchibuV2)
        } else if tag == "LibraV0"@ {
            Some(Model::LibraV0)
        } else {
            None
        }
    }

    /// The tag of the model, as text.
    pub fn name(&self) -> (text: &'static str)
        ensures
            text@ == self.tag(),
    {
        match self {
            Model::IchibuV1 => "IchibuV1",
            Model::IchibuV2 => "IchibuV2",
            Model::LibraV0 => "LibraV0",
        }
    }

    /// Reads a model from its tag. Any other text is refused: there is no
    /// model to fall back on.
    pub fn from_str(s: &str) -> (parsed: Result<Model, ParseError>)
        ensures
            parsed == match Model::of_tag(s@) {
                Some(model) => Ok::<Model, ParseError>(model),
                None => Err(ParseError::UnknownModel),
            },
    {
        if same_text(s, "IchibuV1") {
            Ok(Model::IchibuV1)
        } else if same_text(s, "IchibuV2") {
            Ok(Model::IchibuV2)
        } else if same_text(s, "LibraV0") {
            Ok(Model::LibraV0)
        } else {
            Err(ParseError::UnknownModel)
        }
    }
}

impl FromStr for Model {
    type Err = ParseError;

    fn from_str(s: &str) -> (parsed: Result<Self, Self::Err>)
        ensures
            parsed == match Model::of_tag(s@) {
                Some(model) => Ok::<Model, ParseError>(model),
                None => Err(ParseError::UnknownModel),
            },
    {
        Model::from_str(s)
    }
}

/// Every model is read back from its own tag, and no tag holds the separator.
pub proof fn lemma_model_tags(model: Model)
    ensures
        Model::of_tag(model.tag()) == Some(model),
        model.tag().len() > 0,
        !model.tag().contains('-'),
{
    reveal_strlit("IchibuV1");
    reveal_strlit("IchibuV2");
    reveal_strlit("LibraV0");
    assert("IchibuV1"@[7] != "IchibuV2"@[7]);
    assert("IchibuV1"@.len() != "LibraV0"@.len());
}

/// A tag that names a model is that model's tag.
pub proof fn lemma_tag_of_model(tag: Seq<char>)
    ensures
        Model::of_tag(tag) matches Some(model) ==> model.tag() == tag,
{
}

/// The identity of a device: its model and its serial.
#[derive(Debug, PartialEq)]
pub struct Device {
    pub model: Model,
    pub serial_number: String,
}

/// A device identity as a mathematical value.
pub struct DeviceView {
    pub model: Model,
    pub serial_number: Seq<char>,
}

impl DeviceView {
    /// An identity is well formed when its serial is not empty.
    pub open spec fn well_formed(self) -> bool {
        self.serial_number.len() > 0
    }

    /// The canonical text of the identity: the model's tag, the separator `-`
    /// and the serial.
    pub open spec fn key(self) -> Seq<char> {
        self.model.tag() + seq!['-'] + self.serial_number
    }

    /// What a text reads as: the part before the first `-` is the model, all
    /// that follows it is the serial, which may hold further `-`.
    pub open spec fn parse(text: Seq<char>) -> Result<DeviceView, ParseError> {
        let at = first_index_of(text, '-');
        if at + 1 >= text.len() {
            Err(ParseError::InvalidFormat)
        } else {
            match Model::of_tag(text.subrange(0, at)) {
                Some(model) => Ok(
                    DeviceView { model, serial_number: text.subrange(at + 1, text.len() as int) },
                ),
                None => Err(ParseError::UnknownModel),
            }
        }
    }
}

impl View for Device {
    type V = DeviceView;

    open spec fn view(&self) -> DeviceView {
        DeviceView { model: self.model, serial_number: self.serial_number@ }
    }
}

impl Device {
    /// The identity of the device of `model` with the serial `serial_number`.
    pub fn new(model: Model, serial_number: &str) -> (device: Self)
        requires
            serial_number@.len() > 0,
        ensures
            device@ == (DeviceView { model, serial_number: serial_number@ }),
            device@.well_formed(),
    {
        Self { model, serial_number: serial_number.to_owned() }
    }

    /// The canonical text `<model>-<serial>` of the identity.
    pub fn to_string(&self) -> (text: String)
        ensures
            text@ == self@.key(),
    {
        let mut text = self.model.name().to_owned();
        text.append("-");
        text.append(self.serial_number.as_str());
        proof {
            reveal_strlit("-");
        }
        text
    }

    /// Whether the identity is well formed: whether it has a serial.
    pub fn is_well_formed(&self) -> (yes: bool)
        ensures
            yes == self@.well_formed(),
    {
        !self.serial_number.as_str().is_empty()
    }

    /// Whether two identities are the same: the same model and the same serial.
    pub fn same(&self, other: &Device) -> (same: bool)
        ensures
            same == (self@ == other@),
    {
        self.model == other.model && self.serial_number == other.serial_number
    }

    /// Reads an identity from its canonical text. The text is split at its
    /// first `-`. A text without a `-`, or with nothing after it, is refused
    /// as `InvalidFormat`; one whose first part names no model as
    /// `UnknownModel`.
    pub fn from_str(s: &str) -> (parsed: Result<Device, ParseError>)
        ensures
            match parsed {
                Ok(device) => DeviceView::parse(s@) == Ok::<DeviceView, ParseError>(device@),
                Err(error) => DeviceView::parse(s@) == Err::<DeviceView, ParseError>(error),
            },
    {
        let len = s.unicode_len();
        let at = match find_first(s, '-') {
            Some(at) => at,
            None => { return Err(ParseError::InvalidFormat); },
        };
        if at + 1 >= len {
            return Err(ParseError::InvalidFormat);
        }
        let model = match Model::from_str(s.substring_char(0, at)) {
            Ok(model) => model,
            Err(error) => { return Err(error); },
        };
        Ok(Device::new(model, s.substring_char(at + 1, len)))
    }
}

impl Clone for Device {
    fn clone(&self) -> (copy: Self)
        ensures
            copy@ == self@,
    {
        Device { model: self.model, serial_number: self.serial_number.clone() }
    }
}

impl FromStr for Device {
    type Err = ParseError;

    fn from_str(s: &str) -> (parsed: Result<Self, Self::Err>)
        ensures
            match parsed {
                Ok(device) => DeviceView::parse(s@) == Ok::<DeviceView, ParseError>(device@),
                Err(error) => DeviceView::parse(s@) == Err::<DeviceView, ParseError>(error),
            },
    {
        Device::from_str(s)
    }
}

/// Round trip: the canonical text of a well-formed identity reads back as
/// that identity.
pub proof fn lemma_parse_key(device: DeviceView)
    requires
        device.well_formed(),
    ensures
        DeviceView::parse(device.key()) == Ok::<DeviceView, ParseError>(device),
{
    let tag = device.model.tag();
    let key = device.key();
    lemma_model_tags(device.model);
    lemma_first_index_is(key, '-', tag.len() as int);
    assert(key.subrange(0, tag.len() as int) =~= tag);
    assert(key.subrange(tag.len() as int + 1, key.len() as int) =~= device.serial_number);
}

/// A text that reads as an identity is the canonical text of that identity,
/// and the identity is well formed.
pub proof fn lemma_key_of_parsed(text: Seq<char>)
    ensures
        DeviceView::parse(text) matches Ok(device) ==> device.key() == text
            && device.well_formed(),
{
    lemma_first_index_of(text, '-');
}

/// Two identities with the same canonical text are the same identity.
pub proof fn lemma_key_is_injective(a: DeviceView, b: DeviceView)
    requires
        a.key() == b.key(),
    ensures
        a == b,
{
    lemma_model_tags(a.model);
    lemma_model_tags(b.model);
    let key = a.key();
    let at_a = a.model.tag().len() as int;
    let at_b = b.model.tag().len() as int;
    lemma_first_index_is(key, '-', at_a);
    lemma_first_index_is(key, '-', at_b);
    assert(key.subrange(0, at_a) =~= a.model.tag());
    assert(key.subrange(0, at_b) =~= b.model.tag());
    assert(key.subrange(at_a + 1, key.len() as int) =~= a.serial_number);
    assert(key.subrange(at_b + 1, key.len() as int) =~= b.serial_number);
}

} // verus!
