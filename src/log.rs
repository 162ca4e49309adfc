use vstd::prelude::*;
use vstd::string::*;
use crate::text::{decimal, decimal_of, signed_decimal, signed_decimal_of};

verus! {

/// One line of a job's log, kept as what happened rather than as text.
#[derive(Clone, Debug, PartialEq, Eq)]
pub enum LogLine {
    /// The job was accepted and is about to run.
    Starting { name: String },
    /// A texture pack job was accepted; `name` is the season it belongs to.
    StartingTextures { name: String },
    /// The target folder could not be made.
    FolderFailed { detail: String },
    /// Cancellation was seen before a step started.
    Cancelled,
    /// A fetch step is about to run.
    Downloading { depot: u64, manifest: String },
    /// A line that the fetch tool printed.
    Tool { text: String },
    /// The fetch tool is not where it should be.
    ToolMissing { path: String },
    /// The fetch tool could not be launched.
    SpawnFailed { detail: String },
    /// The fetch tool's process could not be reaped.
    WaitFailed { detail: String },
    /// The fetch tool exited with a failure code.
    DepotFailed { depot: u64, code: i64 },
    /// The fetch tool exited with success.
    DepotDone { depot: u64 },
    /// The post-download copies begin.
    CopyingExtras,
    CrackCopied,
    CrackFailed { detail: String },
    /// The post-download folder does not exist; nothing was copied.
    CrackSkipped,
    LocalizationCopied,
    LocalizationFailed { detail: String },
    /// The localization file does not exist; nothing was copied.
    LocalizationSkipped,
    /// Every fetch succeeded.
    Finished { name: String },
    /// What the user can do next.
    Hint { textures: bool },
}

/// The text shown for a line.
pub open spec fn line_text(l: LogLine) -> Seq<char> {
    match l {
        LogLine::Starting { name } => "Starting download of "@ + name@ + "..."@,
        LogLine::StartingTextures { name } => "Starting 4K texture download for "@ + name@ + "..."@,
        LogLine::ToolMissing { path } => "DepotDownloader.dll not found at: "@ + path@,
        LogLine::FolderFailed { detail } => "Failed to create download directory: "@ + detail@,
        LogLine::Cancelled => "Download cancelled by user"@,
        LogLine::Downloading { depot, manifest } =>
            "Downloading depot "@ + decimal_of(depot as nat) + " with manifest "@ + manifest@ + "..."@,
        LogLine::Tool { text } => text@,
        LogLine::SpawnFailed { detail } => "Failed to start download process: "@ + detail@,
        LogLine::WaitFailed { detail } => "Failed to wait for download process: "@ + detail@,
        LogLine::DepotFailed { depot, code } =>
            "Download failed for depot "@ + decimal_of(depot as nat) + " (exit code: "@
                + signed_decimal_of(code as int) + ")"@,
        LogLine::DepotDone { depot } => "Successfully downloaded depot "@ + decimal_of(depot as nat),
        LogLine::CopyingExtras => "Copying crack files and localization..."@,
        LogLine::CrackCopied => "Crack files copied successfully"@,
        LogLine::CrackFailed { detail } => "Failed to copy crack files: "@ + detail@,
        LogLine::CrackSkipped => "Crack files not found, skipped"@,
        LogLine::LocalizationCopied => "Localization file copied successfully"@,
        LogLine::LocalizationFailed { detail } => "Failed to copy localization file: "@ + detail@,
        LogLine::LocalizationSkipped => "Localization file not found, skipped"@,
        LogLine::Finished { name } => "Download completed successfully for "@ + name@,
        LogLine::Hint { textures } => if textures {
            "4K textures are now available in your game directory"@
        } else {
            "You can now launch the game using RainbowSix.bat"@
        },
    }
}

fn joined(a: &str, b: &str) -> (r: String)
    ensures
        r@ == a@ + b@,
{
    let mut s = String::from_str(a);
    s.append(b);
    s
}

impl LogLine {
    /// A copy of this line.
    pub fn duplicate(&self) -> (r: LogLine)
        ensures
            r == *self,
    {
        match self {
            LogLine::Starting { name } => LogLine::Starting { name: name.clone() },
            LogLine::StartingTextures { name } => LogLine::StartingTextures { name: name.clone() },
            LogLine::ToolMissing { path } => LogLine::ToolMissing { path: path.clone() },
            LogLine::FolderFailed { detail } => LogLine::FolderFailed { detail: detail.clone() },
            LogLine::Cancelled => LogLine::Cancelled,
            LogLine::Downloading { depot, manifest } =>
                LogLine::Downloading { depot: *depot, manifest: manifest.clone() },
            LogLine::Tool { text } => LogLine::Tool { text: text.clone() },
            LogLine::SpawnFailed { detail } => LogLine::SpawnFailed { detail: detail.clone() },
            LogLine::WaitFailed { detail } => LogLine::WaitFailed { detail: detail.clone() },
            LogLine::DepotFailed { depot, code } => LogLine::DepotFailed { depot: *depot, code: *code },
            LogLine::DepotDone { depot } => LogLine::DepotDone { depot: *depot },
            LogLine::CopyingExtras => LogLine::CopyingExtras,
            LogLine::CrackCopied => LogLine::CrackCopied,
            LogLine::CrackFailed { detail } => LogLine::CrackFailed { detail: detail.clone() },
            LogLine::CrackSkipped => LogLine::CrackSkipped,
            LogLine::LocalizationCopied => LogLine::LocalizationCopied,
            LogLine::LocalizationFailed { detail } =>
                LogLine::LocalizationFailed { detail: detail.clone() },
            LogLine::LocalizationSkipped => LogLine::LocalizationSkipped,
            LogLine::Finished { name } => LogLine::Finished { name: name.clone() },
            LogLine::Hint { textures } => LogLine::Hint { textures: *textures },
        }
    }

    /// The text shown for this line.
    pub fn text(&self) -> (r: String)
        ensures
            r@ == line_text(*self),
    {
        match self {
            LogLine::Starting { name } => {
                let mut s = joined("Starting download of ", name.as_str());
                s.append("...");
                s
            },
            LogLine::StartingTextures { name } => {
                let mut s = joined("Starting 4K texture download for ", name.as_str());
                s.append("...");
                s
            },
            LogLine::ToolMissing { path } => joined("DepotDownloader.dll not found at: ", path.as_str()),
            LogLine::FolderFailed { detail } =>
                joined("Failed to create download directory: ", detail.as_str()),
            LogLine::Cancelled => String::from_str("Download cancelled by user"),
            LogLine::Downloading { depot, manifest } => {
                let d = decimal(*depot);
                let mut s = joined("Downloading depot ", d.as_str());
                s.append(" with manifest ");
                s.append(manifest.as_str());
                s.append("...");
                s
            },
            LogLine::Tool { text } => text.clone(),
            LogLine::SpawnFailed { detail } =>
                joined("Failed to start download process: ", detail.as_str()),
            LogLine::WaitFailed { detail } =>
                joined("Failed to wait for download process: ", detail.as_str()),
            LogLine::DepotFailed { depot, code } => {
                let d = decimal(*depot);
                let c = signed_decimal(*code);
                let mut s = joined("Download failed for depot ", d.as_str());
                s.append(" (exit code: ");
                s.append(c.as_str());
                s.append(")");
                s
            },
            LogLine::DepotDone { depot } => {
                let d = decimal(*depot);
                joined("Successfully downloaded depot ", d.as_str())
            },
            LogLine::CopyingExtras => String::from_str("Copying crack files and localization..."),
            LogLine::CrackCopied => String::from_str("Crack files copied successfully"),
            LogLine::CrackFailed { detail } => joined("Failed to copy crack files: ", detail.as_str()),
            LogLine::CrackSkipped => String::from_str("Crack files not found, skipped"),
            LogLine::LocalizationCopied => String::from_str("Localization file copied successfully"),
            LogLine::LocalizationFailed { detail } =>
                joined("Failed to copy localization file: ", detail.as_str()),
            LogLine::LocalizationSkipped => String::from_str("Localization file not found, skipped"),
            LogLine::Finished { name } => joined("Download completed successfully for ", name.as_str()),
            LogLine::Hint { textures } => if *textures {
                String::from_str("4K textures are now available in your game directory")
            } else {
                String::from_str("You can now launch the game using RainbowSix.bat")
            },
        }
    }
}

} // verus!
