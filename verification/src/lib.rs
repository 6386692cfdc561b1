//! Verified core of a small console tool that searches a public
//! article-sharing platform for recent, popular articles.
//!
//! The library holds everything that can be stated and proved: calendar
//! arithmetic for the one-week boundary date, rendering of the search query
//! and request URL, sorting of the fetched records by popularity, and the
//! exact text of the printed report and of the error line.  The thin binary
//! around it only reads the command line, performs the HTTP round trip and
//! the JSON decoding, and prints the strings this library builds.

pub mod date;
pub mod query;
pub mod report;
pub mod text;
