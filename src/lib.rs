//! Display logic of a terminal system monitor: the transforms applied to raw
//! host metrics before they are drawn, the ordering of the process table, and
//! the quit protocol of the redraw loop.
//!
//! Percentages are carried as fixed-point integers (hundredths or tenths of a
//! percent) and byte counts as `u64`, so every threshold is decided exactly.

pub mod frame;
mod level;
pub mod logo;
pub mod metrics;
pub mod processes;
pub mod session;

pub use frame::{cpu_bars, derive_frame, disk_lines, DiskSample, DisplayFrame, MetricsSnapshot};
pub use level::Level;
pub use logo::{banner_colors, colors_for, palette_color, BannerColor};
pub use metrics::{cpu_bar, disk_usage, memory_summary, CpuBar, DiskUsage, MemorySummary};
pub use processes::{order_by_usage_desc, process_row, process_rows, ProcessRow, ProcessSample};
pub use session::{Action, InputEvent, Key, Monitor, Phase};
