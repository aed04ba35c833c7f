use vstd::prelude::*;

verus! {

/// What the caller asks of a run.
pub struct Args {
    /// A file to read, or a folder whose files are all read.
    pub input: String,
    /// Folder for the exported images.
    pub output: Option<String>,
    /// Whether the alpha channel is kept in exported images.
    pub export_alpha: bool,
    /// Whether block data is byte-swapped even for containers that are not
    /// from the Xbox 360.
    pub force_dxt_endian_fix: bool,
    /// Whether no resource is decoded at all.
    pub no_resource_export: bool,
    /// Whether exported images are opened in a viewer.
    pub open: bool,
    /// Whether exported alpha is reduced to fully on or fully off.
    pub experimental_onebitalpha: bool,
}

} // verus!
