# zsclip hover preview

The hover preview of the zsclip clipboard manager: the popup that shows a
text, file or image entry when the cursor rests on it in the main list, and
the image zoom window.

- `src/` is the verified library (Verus): window sizing (`window_size`),
  text trimming (`text_preview`), file and Markdown previews
  (`file_preview`), the preview window's state machine and placement
  (`preview_window`), the main list's hover decisions and layout
  (`main_view`), and GDI+ pixel, thumbnail and rounded-rectangle helpers
  (`gdiplus`). Each module states its laws as public proof functions
  named `law_*`.
- `app/` is the Win32 glue: the window class and procedure, GDI+ through
  its C API, the background image load and the mouse handlers. It carries
  out what the library decides.
- `tests/` runs the library on concrete values.
