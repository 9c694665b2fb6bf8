# npong

The rules of nPong, a two-paddle pong game, as a Verus-verified library,
with the windows, the networking and the game loops around it in `app/`.

- `src/shared/`: the networked game that the server runs and the clients
  mirror: ball, paddles, walls, the state of a game with its input,
  collision and tick rules, and the messages between server and clients.
- `src/local/`: the game played by two players at one keyboard, with its
  own collision rules (a ball reaching the top or bottom wall starts the
  game over), keyboard handling, drawing and loop decisions.
- `src/client/`, `src/server.rs`: the client's keyboard, drawing and loop
  decisions; how the server seats players in rooms.
- `src/physics.rs`: the ball-against-paddle contact test both games use.
- `src/frame.rs`: painting rectangles, disks and the background on an RGBA
  frame, as seen by either player.
- `src/laws.rs`: properties proved across operations.
- `app/`: `main` with three modes (`local`, `server`, `client`), winit and
  pixels windows, actix websockets, and the floating-point ball shading.

Speeds are fixed-point: the ball's in millionths of a pixel per
millisecond, the paddles' in thousandths. Positions of the networked game
are thousandths of a pixel; the local game keeps whole pixels.
