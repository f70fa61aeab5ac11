//! The structured record mapper: projecting a property bag into the
//! fixed-shape process record, defaulting absent and empty fields to the
//! field type's zero value.
//!
//! A property that is present but of an unexpected kind is a
//! programming-contract violation: field-name-to-type associations are
//! fixed by the record shape, not discovered at runtime, so the checked
//! entry point reports such a bag rather than coercing silently.

use vstd::prelude::*;

use crate::bag::{bag_lookup, PropertyBag};
use crate::wire::{ValueType, ValueTypeV};

verus! {

/// A text field is well-typed when it is absent, empty, or text.
pub open spec fn text_field_ok(entries: Seq<(Seq<char>, ValueTypeV)>, name: Seq<char>) -> bool {
    match bag_lookup(entries, name) {
        Option::None => true,
        Option::Some(v) => v is EMPTY || v is BSTR,
    }
}

/// The text under `name`, or the empty string when absent or empty.
pub open spec fn spec_text_field(
    entries: Seq<(Seq<char>, ValueTypeV)>,
    name: Seq<char>,
) -> Seq<char> {
    match bag_lookup(entries, name) {
        Option::Some(ValueTypeV::BSTR(s)) => s,
        _ => Seq::empty(),
    }
}

/// A four-byte signed field is well-typed when it is absent, empty, or a
/// four-byte signed integer.
pub open spec fn i4_field_ok(entries: Seq<(Seq<char>, ValueTypeV)>, name: Seq<char>) -> bool {
    match bag_lookup(entries, name) {
        Option::None => true,
        Option::Some(v) => v is EMPTY || v is I4,
    }
}

/// The integer under `name`, or zero when absent or empty.
pub open spec fn spec_i4_field(entries: Seq<(Seq<char>, ValueTypeV)>, name: Seq<char>) -> i32 {
    match bag_lookup(entries, name) {
        Option::Some(ValueTypeV::I4(x)) => x,
        _ => 0,
    }
}

/// Unwraps a text field, substituting the empty string for an absent or
/// empty property.
pub fn text_field(bag: &PropertyBag, name: &str) -> (r: String)
    requires
        text_field_ok(bag@, name@),
    ensures
        r@ == spec_text_field(bag@, name@),
{
    match bag.get(name) {
        Option::None => String::new(),
        Option::Some(v) => match v {
            ValueType::BSTR(s) => s.clone(),
            ValueType::EMPTY => String::new(),
            _ => vstd::pervasive::unreached(),
        },
    }
}

/// Unwraps a four-byte signed field, substituting zero for an absent or
/// empty property.
pub fn i4_field(bag: &PropertyBag, name: &str) -> (r: i32)
    requires
        i4_field_ok(bag@, name@),
    ensures
        r == spec_i4_field(bag@, name@),
{
    match bag.get(name) {
        Option::None => 0,
        Option::Some(v) => match v {
            ValueType::I4(x) => *x,
            ValueType::EMPTY => 0,
            _ => vstd::pervasive::unreached(),
        },
    }
}

/// Whether a text field is absent, empty, or text.
pub fn text_field_check(bag: &PropertyBag, name: &str) -> (b: bool)
    ensures
        b == text_field_ok(bag@, name@),
{
    match bag.get(name) {
        Option::None => true,
        Option::Some(v) => match v {
            ValueType::BSTR(_) => true,
            ValueType::EMPTY => true,
            _ => false,
        },
    }
}

/// Whether a four-byte signed field is absent, empty, or such an integer.
pub fn i4_field_check(bag: &PropertyBag, name: &str) -> (b: bool)
    ensures
        b == i4_field_ok(bag@, name@),
{
    match bag.get(name) {
        Option::None => true,
        Option::Some(v) => match v {
            ValueType::I4(_) => true,
            ValueType::EMPTY => true,
            _ => false,
        },
    }
}

/// The whole of the process object's fixed record shape, one field per
/// property the service reports for a process instance.
#[allow(non_camel_case_types)]
#[allow(non_snake_case)]
#[derive(Debug, PartialEq)]
pub struct Win32_Process {
    pub Caption: String,
    pub CreationDate: String,
    pub CSCreationClassName: String,
    pub Description: String,
    pub CSName: String,
    pub VirtualSize: String,
    pub MaximumWorkingSetSize: i32,
    pub QuotaNonPagedPoolUsage: i32,
    pub ReadOperationCount: String,
    pub ExecutablePath: String,
    pub ParentProcessId: i32,
    pub ReadTransferCount: String,
    pub PeakWorkingSetSize: i32,
    pub UserModeTime: String,
    pub PageFileUsage: i32,
    pub OtherOperationCount: String,
    pub Name: String,
    pub HandleCount: i32,
    pub PrivatePageCount: String,
    pub QuotaPeakNonPagedPoolUsage: i32,
    pub MinimumWorkingSetSize: i32,
    pub PeakVirtualSize: String,
    pub QuotaPeakPagedPoolUsage: i32,
    pub SessionId: i32,
    pub WorkingSetSize: String,
    pub CreationClassName: String,
    pub OSCreationClassName: String,
    pub KernelModeTime: String,
    pub OtherTransferCount: String,
    pub Handle: String,
    pub PageFaults: i32,
    pub WriteOperationCount: String,
    pub WriteTransferCount: String,
    pub ProcessId: i32,
    pub ThreadCount: i32,
    pub OSName: String,
    pub Priority: i32,
    pub QuotaPagedPoolUsage: i32,
    pub PeakPageFileUsage: i32,
    pub WindowsVersion: String,
    pub CommandLine: String,
}

impl Win32_Process {
    /// Every known field of the record shape is either absent from the
    /// bag, empty, or of the kind the shape fixes for it.
    pub open spec fn bag_well_typed(entries: Seq<(Seq<char>, ValueTypeV)>) -> bool {
        &&& text_field_ok(entries, "Caption"@)
        &&& text_field_ok(entries, "CreationDate"@)
        &&& text_field_ok(entries, "CSCreationClassName"@)
        &&& text_field_ok(entries, "Description"@)
        &&& text_field_ok(entries, "CSName"@)
        &&& text_field_ok(entries, "VirtualSize"@)
        &&& i4_field_ok(entries, "MaximumWorkingSetSize"@)
        &&& i4_field_ok(entries, "QuotaNonPagedPoolUsage"@)
        &&& text_field_ok(entries, "ReadOperationCount"@)
        &&& text_field_ok(entries, "ExecutablePath"@)
        &&& i4_field_ok(entries, "ParentProcessId"@)
        &&& text_field_ok(entries, "ReadTransferCount"@)
        &&& i4_field_ok(entries, "PeakWorkingSetSize"@)
        &&& text_field_ok(entries, "UserModeTime"@)
        &&& i4_field_ok(entries, "PageFileUsage"@)
        &&& text_field_ok(entries, "OtherOperationCount"@)
        &&& text_field_ok(entries, "Name"@)
        &&& i4_field_ok(entries, "HandleCount"@)
        &&& text_field_ok(entries, "PrivatePageCount"@)
        &&& i4_field_ok(entries, "QuotaPeakNonPagedPoolUsage"@)
        &&& i4_field_ok(entries, "MinimumWorkingSetSize"@)
        &&& text_field_ok(entries, "PeakVirtualSize"@)
        &&& i4_field_ok(entries, "QuotaPeakPagedPoolUsage"@)
        &&& i4_field_ok(entries, "SessionId"@)
        &&& text_field_ok(entries, "WorkingSetSize"@)
        &&& text_field_ok(entries, "CreationClassName"@)
        &&& text_field_ok(entries, "OSCreationClassName"@)
        &&& text_field_ok(entries, "KernelModeTime"@)
        &&& text_field_ok(entries, "OtherTransferCount"@)
        &&& text_field_ok(entries, "Handle"@)
        &&& i4_field_ok(entries, "PageFaults"@)
        &&& text_field_ok(entries, "WriteOperationCount"@)
        &&& text_field_ok(entries, "WriteTransferCount"@)
        &&& i4_field_ok(entries, "ProcessId"@)
        &&& i4_field_ok(entries, "ThreadCount"@)
        &&& text_field_ok(entries, "OSName"@)
        &&& i4_field_ok(entries, "Priority"@)
        &&& i4_field_ok(entries, "QuotaPagedPoolUsage"@)
        &&& i4_field_ok(entries, "PeakPageFileUsage"@)
        &&& text_field_ok(entries, "WindowsVersion"@)
        &&& text_field_ok(entries, "CommandLine"@)
    }

    /// Every field of `r` holds the bag's value for its fixed property
    /// name, with absent and empty properties defaulted to zero values.
    pub open spec fn matches_bag(r: Win32_Process, entries: Seq<(Seq<char>, ValueTypeV)>) -> bool {
        &&& r.Caption@ == spec_text_field(entries, "Caption"@)
        &&& r.CreationDate@ == spec_text_field(entries, "CreationDate"@)
        &&& r.CSCreationClassName@ == spec_text_field(entries, "CSCreationClassName"@)
        &&& r.Description@ == spec_text_field(entries, "Description"@)
        &&& r.CSName@ == spec_text_field(entries, "CSName"@)
        &&& r.VirtualSize@ == spec_text_field(entries, "VirtualSize"@)
        &&& r.MaximumWorkingSetSize == spec_i4_field(entries, "MaximumWorkingSetSize"@)
        &&& r.QuotaNonPagedPoolUsage == spec_i4_field(entries, "QuotaNonPagedPoolUsage"@)
        &&& r.ReadOperationCount@ == spec_text_field(entries, "ReadOperationCount"@)
        &&& r.ExecutablePath@ == spec_text_field(entries, "ExecutablePath"@)
        &&& r.ParentProcessId == spec_i4_field(entries, "ParentProcessId"@)
        &&& r.ReadTransferCount@ == spec_text_field(entries, "ReadTransferCount"@)
        &&& r.PeakWorkingSetSize == spec_i4_field(entries, "PeakWorkingSetSize"@)
        &&& r.UserModeTime@ == spec_text_field(entries, "UserModeTime"@)
        &&& r.PageFileUsage == spec_i4_field(entries, "PageFileUsage"@)
        &&& r.OtherOperationCount@ == spec_text_field(entries, "OtherOperationCount"@)
        &&& r.Name@ == spec_text_field(entries, "Name"@)
        &&& r.HandleCount == spec_i4_field(entries, "HandleCount"@)
        &&& r.PrivatePageCount@ == spec_text_field(entries, "PrivatePageCount"@)
        &&& r.QuotaPeakNonPagedPoolUsage == spec_i4_field(entries, "QuotaPeakNonPagedPoolUsage"@)
        &&& r.MinimumWorkingSetSize == spec_i4_field(entries, "MinimumWorkingSetSize"@)
        &&& r.PeakVirtualSize@ == spec_text_field(entries, "PeakVirtualSize"@)
        &&& r.QuotaPeakPagedPoolUsage == spec_i4_field(entries, "QuotaPeakPagedPoolUsage"@)
        &&& r.SessionId == spec_i4_field(entries, "SessionId"@)
        &&& r.WorkingSetSize@ == spec_text_field(entries, "WorkingSetSize"@)
        &&& r.CreationClassName@ == spec_text_field(entries, "CreationClassName"@)
        &&& r.OSCreationClassName@ == spec_text_field(entries, "OSCreationClassName"@)
        &&& r.KernelModeTime@ == spec_text_field(entries, "KernelModeTime"@)
        &&& r.OtherTransferCount@ == spec_text_field(entries, "OtherTransferCount"@)
        &&& r.Handle@ == spec_text_field(entries, "Handle"@)
        &&& r.PageFaults == spec_i4_field(entries, "PageFaults"@)
        &&& r.WriteOperationCount@ == spec_text_field(entries, "WriteOperationCount"@)
        &&& r.WriteTransferCount@ == spec_text_field(entries, "WriteTransferCount"@)
        &&& r.ProcessId == spec_i4_field(entries, "ProcessId"@)
        &&& r.ThreadCount == spec_i4_field(entries, "ThreadCount"@)
        &&& r.OSName@ == spec_text_field(entries, "OSName"@)
        &&& r.Priority == spec_i4_field(entries, "Priority"@)
        &&& r.QuotaPagedPoolUsage == spec_i4_field(entries, "QuotaPagedPoolUsage"@)
        &&& r.PeakPageFileUsage == spec_i4_field(entries, "PeakPageFileUsage"@)
        &&& r.WindowsVersion@ == spec_text_field(entries, "WindowsVersion"@)
        &&& r.CommandLine@ == spec_text_field(entries, "CommandLine"@)
    }

    /// Projects a property bag into the process record, field by field.
    /// The bag must be well-typed for the record shape: a property of an
    /// unexpected kind is a programming-contract violation, which the
    /// checked entry point [`Win32_Process::try_from_properties`] reports
    /// instead of coercing.
    pub fn from_properties(bag: &PropertyBag) -> (r: Self)
        requires
            Self::bag_well_typed(bag@),
        ensures
            Self::matches_bag(r, bag@),
    {
        Self {
            Caption: text_field(bag, "Caption"),
            CreationDate: text_field(bag, "CreationDate"),
            CSCreationClassName: text_field(bag, "CSCreationClassName"),
            Description: text_field(bag, "Description"),
            CSName: text_field(bag, "CSName"),
            VirtualSize: text_field(bag, "VirtualSize"),
            MaximumWorkingSetSize: i4_field(bag, "MaximumWorkingSetSize"),
            QuotaNonPagedPoolUsage: i4_field(bag, "QuotaNonPagedPoolUsage"),
            ReadOperationCount: text_field(bag, "ReadOperationCount"),
            ExecutablePath: text_field(bag, "ExecutablePath"),
            ParentProcessId: i4_field(bag, "ParentProcessId"),
            ReadTransferCount: text_field(bag, "ReadTransferCount"),
            PeakWorkingSetSize: i4_field(bag, "PeakWorkingSetSize"),
            UserModeTime: text_field(bag, "UserModeTime"),
            PageFileUsage: i4_field(bag, "PageFileUsage"),
            OtherOperationCount: text_field(bag, "OtherOperationCount"),
            Name: text_field(bag, "Name"),
            HandleCount: i4_field(bag, "HandleCount"),
            PrivatePageCount: text_field(bag, "PrivatePageCount"),
            QuotaPeakNonPagedPoolUsage: i4_field(bag, "QuotaPeakNonPagedPoolUsage"),
            MinimumWorkingSetSize: i4_field(bag, "MinimumWorkingSetSize"),
            PeakVirtualSize: text_field(bag, "PeakVirtualSize"),
            QuotaPeakPagedPoolUsage: i4_field(bag, "QuotaPeakPagedPoolUsage"),
            SessionId: i4_field(bag, "SessionId"),
            WorkingSetSize: text_field(bag, "WorkingSetSize"),
            CreationClassName: text_field(bag, "CreationClassName"),
            OSCreationClassName: text_field(bag, "OSCreationClassName"),
            KernelModeTime: text_field(bag, "KernelModeTime"),
            OtherTransferCount: text_field(bag, "OtherTransferCount"),
            Handle: text_field(bag, "Handle"),
            PageFaults: i4_field(bag, "PageFaults"),
            WriteOperationCount: text_field(bag, "WriteOperationCount"),
            WriteTransferCount: text_field(bag, "WriteTransferCount"),
            ProcessId: i4_field(bag, "ProcessId"),
            ThreadCount: i4_field(bag, "ThreadCount"),
            OSName: text_field(bag, "OSName"),
            Priority: i4_field(bag, "Priority"),
            QuotaPagedPoolUsage: i4_field(bag, "QuotaPagedPoolUsage"),
            PeakPageFileUsage: i4_field(bag, "PeakPageFileUsage"),
            WindowsVersion: text_field(bag, "WindowsVersion"),
            CommandLine: text_field(bag, "CommandLine"),
        }
    }

    /// Projects a property bag into the process record after checking
    /// that the bag is well-typed for the record shape; reports `None`
    /// for a bag that carries a known field of an unexpected kind.
    pub fn try_from_properties(bag: &PropertyBag) -> (r: Option<Self>)
        ensures
            r matches Some(p) ==> Self::bag_well_typed(bag@) && Self::matches_bag(p, bag@),
            r is None ==> !Self::bag_well_typed(bag@),
    {
        let well_typed = {
            text_field_check(bag, "Caption")
                && text_field_check(bag, "CreationDate")
                && text_field_check(bag, "CSCreationClassName")
                && text_field_check(bag, "Description")
                && text_field_check(bag, "CSName")
                && text_field_check(bag, "VirtualSize")
                && i4_field_check(bag, "MaximumWorkingSetSize")
                && i4_field_check(bag, "QuotaNonPagedPoolUsage")
                && text_field_check(bag, "ReadOperationCount")
                && text_field_check(bag, "ExecutablePath")
                && i4_field_check(bag, "ParentProcessId")
                && text_field_check(bag, "ReadTransferCount")
                && i4_field_check(bag, "PeakWorkingSetSize")
                && text_field_check(bag, "UserModeTime")
                && i4_field_check(bag, "PageFileUsage")
                && text_field_check(bag, "OtherOperationCount")
                && text_field_check(bag, "Name")
                && i4_field_check(bag, "HandleCount")
                && text_field_check(bag, "PrivatePageCount")
                && i4_field_check(bag, "QuotaPeakNonPagedPoolUsage")
                && i4_field_check(bag, "MinimumWorkingSetSize")
                && text_field_check(bag, "PeakVirtualSize")
                && i4_field_check(bag, "QuotaPeakPagedPoolUsage")
                && i4_field_check(bag, "SessionId")
                && text_field_check(bag, "WorkingSetSize")
                && text_field_check(bag, "CreationClassName")
                && text_field_check(bag, "OSCreationClassName")
                && text_field_check(bag, "KernelModeTime")
                && text_field_check(bag, "OtherTransferCount")
                && text_field_check(bag, "Handle")
                && i4_field_check(bag, "PageFaults")
                && text_field_check(bag, "WriteOperationCount")
                && text_field_check(bag, "WriteTransferCount")
                && i4_field_check(bag, "ProcessId")
                && i4_field_check(bag, "ThreadCount")
                && text_field_check(bag, "OSName")
                && i4_field_check(bag, "Priority")
                && i4_field_check(bag, "QuotaPagedPoolUsage")
                && i4_field_check(bag, "PeakPageFileUsage")
                && text_field_check(bag, "WindowsVersion")
                && text_field_check(bag, "CommandLine")
        };
        if well_typed {
            Some(Self::from_properties(bag))
        } else {
            None
        }
    }
}

} // verus!
