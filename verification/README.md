# fpexif maker notes

Verified parsers for the camera maker-note blocks of Nikon, Olympus,
Panasonic and Pentax EXIF data. Each parser turns the raw bytes of a
maker note into a map from tag IDs to decoded tags; its contract states the
result over a specification of the directory walk, entry by entry.

Layout:

- `src/bytes.rs`, `src/tiff.rs`: integers and TIFF directory values out of
  byte buffers, in either byte order.
- `src/text.rs`: decimal and hexadecimal text, trimming, joining.
- `src/ratio.rs`: quotients of integers as doubles, worked out exactly in
  integers (fixed-decimal and shortest decimal text, comparisons, products).
- `src/types.rs`: tag values and tags, with their mathematical views.
- `src/nikon*.rs`, `src/olympus.rs`, `src/panasonic.rs`, `src/pentax.rs`:
  tag names, value decoders, sub-directory parsers and the parsers proper.
- `app/lib.rs`: what is a floating-point function: the packed rationals as
  doubles, and the Olympus maximum apertures (powers of two with fractional
  exponents), added to the Olympus parser's result.
- `tests/`: scenarios, and comparisons of the integer formulas with the
  floating-point computations they stand for.
