# alphaview

The verified core of a desktop browser and developer for Sony `.ARW` RAW files.

- `src/` is the library, verified with Verus:
  - `browse`: which entries of a folder listing are `.ARW` files;
  - `text`: quote removal for EXIF display texts;
  - `exif_data`: the EXIF attributes of a file header, read through `kamadak-exif`;
  - `metadata`: the metadata panel, the header read limit and where the embedded thumbnail lies;
  - `encoding`: Base64 `data:` URLs and JPEG encoding of previews (`base64`, `image`);
  - `develop`: the integer side of developing a preview (crop choice, auto-exposure metering grid,
    interquartile window, colour filter array, demosaic blocks);
  - `laws`: properties that span these functions, as proof functions.
- `tests/` runs the library on concrete values.
- `app/` is the Tauri backend: file access, RAW decoding with `rawler`, the floating-point colour
  pipeline with `rayon`, and the command wiring.
