# renmap

A desktop front end for TCP SYN port scans. The crate under `src/` is the
verified core: the window state and how each click changes it (`app`), the
scan form and its defaults (`options`), reading a port number (`port`),
setting up a scan (`scan`), the result table (`results`), the history of
finished scans (`store`), where results are stored (`db`) and decimal
rendering and joining of text (`text`).

`app/` is the program around it: the egui window, the scan thread that calls
pistol, and the SQLite file.
